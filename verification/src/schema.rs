//! Reading a document as a configuration, with the path of the first failure.
//!
//! The fields are read in the order of the model: the account, the network,
//! the runtimes, the volatility gate. The first field that does not fit ends
//! the reading. A path names fields with points between them, and an item of a
//! sequence by its index in square brackets: `account.size`, `runtimes[1]`.

use crate::decimal::{decimal_digits, decimal_string};
use crate::document::{deref_node, field, find_field, Node, Source};
use crate::error::{ConfigError, ErrorModel};
use crate::model::{AccountConfig, AccountModel, AppConfig, ConfigModel, NetworkConfig, RuntimeKind};
use crate::number::{is_real_text, Real};
use crate::yaml::{first_document, yaml_first_document};
use vstd::prelude::*;

verus! {

/// The failure of a document at `path`.
pub open spec fn parse_failure(path: Seq<char>, cause: Seq<char>) -> ErrorModel {
    ErrorModel::Parse { path, cause }
}

/// The cause given where a required field is absent.
pub open spec fn missing_field(name: Seq<char>) -> Seq<char> {
    "missing field `"@ + name + "`"@
}

/// The cause given where a node is of another kind than the model asks for.
pub open spec fn wrong_type(found: Seq<char>, expected: Seq<char>) -> Seq<char> {
    "invalid type: "@ + found + ", expected "@ + expected
}

/// The cause given where an unsigned integer is too large for its field.
pub open spec fn out_of_range(value: nat, expected: Seq<char>) -> Seq<char> {
    "invalid value: integer `"@ + decimal_digits(value) + "`, expected "@ + expected
}

/// The cause given where a text names no runtime kind.
pub open spec fn unknown_runtime(name: Seq<char>) -> Seq<char> {
    "unknown variant `"@ + name + "`, expected one of `python`, `rust`, `node`"@
}

/// The path of the item at `index` of the runtimes.
pub open spec fn runtime_path(index: nat) -> Seq<char> {
    "runtimes["@ + decimal_digits(index) + "]"@
}

/// A real number read from `node`.
pub open spec fn real_of(node: Node, path: Seq<char>) -> Result<Seq<char>, ErrorModel> {
    match node {
        Node::Number { unsigned, decimal } => if is_real_text(decimal@) {
            Ok(decimal@)
        } else {
            Err(parse_failure(path, wrong_type(node.kind_of(), "a number"@)))
        },
        _ => Err(parse_failure(path, wrong_type(node.kind_of(), "a number"@))),
    }
}

/// A required real number.
pub open spec fn required_real(found: Option<Node>, path: Seq<char>, name: Seq<char>) -> Result<
    Seq<char>,
    ErrorModel,
> {
    match found {
        Some(node) => real_of(node, path),
        None => Err(parse_failure(path, missing_field(name))),
    }
}

/// A real number that may be absent or null.
pub open spec fn optional_real(found: Option<Node>, path: Seq<char>) -> Result<
    Option<Seq<char>>,
    ErrorModel,
> {
    match found {
        None => Ok(None),
        Some(Node::Null) => Ok(None),
        Some(node) => match real_of(node, path) {
            Ok(text) => Ok(Some(text)),
            Err(e) => Err(e),
        },
    }
}

/// An unsigned integer of at most `limit` read from `node`.
pub open spec fn unsigned_of(node: Node, path: Seq<char>, limit: u64, expected: Seq<char>) -> Result<
    u64,
    ErrorModel,
> {
    match node {
        Node::Number { unsigned: Some(n), decimal } => if n <= limit {
            Ok(n)
        } else {
            Err(parse_failure(path, out_of_range(n as nat, expected)))
        },
        _ => Err(parse_failure(path, wrong_type(node.kind_of(), expected))),
    }
}

/// The account, read from the value of the field `account`.
pub open spec fn account_of(found: Option<Node>) -> Result<AccountModel, ErrorModel> {
    match found {
        None => Err(parse_failure("account"@, missing_field("account"@))),
        Some(Node::Mapping(entries)) => match required_real(
            find_field(entries@, "size"@),
            "account.size"@,
            "size"@,
        ) {
            Err(e) => Err(e),
            Ok(size) => match required_real(
                find_field(entries@, "risk_per_trade"@),
                "account.risk_per_trade"@,
                "risk_per_trade"@,
            ) {
                Err(e) => Err(e),
                Ok(risk_per_trade) => Ok(AccountModel { size, risk_per_trade }),
            },
        },
        Some(node) => Err(
            parse_failure("account"@, wrong_type(node.kind_of(), "a mapping"@)),
        ),
    }
}

/// The control-plane port, read from the value of `network.master_port`.
pub open spec fn port_of(found: Option<Node>) -> Result<u16, ErrorModel> {
    match found {
        None => Err(parse_failure("network.master_port"@, missing_field("master_port"@))),
        Some(node) => match unsigned_of(node, "network.master_port"@, 65535, "an integer from 0 to 65535"@) {
            Ok(n) => Ok(n as u16),
            Err(e) => Err(e),
        },
    }
}

/// The simulated latency, read from the value of `network.sim_latency_ms`:
/// none where the field is absent or null.
pub open spec fn latency_of(found: Option<Node>) -> Result<Option<u64>, ErrorModel> {
    match found {
        None => Ok(None),
        Some(Node::Null) => Ok(None),
        Some(node) => match unsigned_of(node, "network.sim_latency_ms"@, u64::MAX, "an unsigned integer"@) {
            Ok(n) => Ok(Some(n)),
            Err(e) => Err(e),
        },
    }
}

/// The network, read from the value of the field `network`.
pub open spec fn network_of(found: Option<Node>) -> Result<NetworkConfig, ErrorModel> {
    match found {
        None => Err(parse_failure("network"@, missing_field("network"@))),
        Some(Node::Mapping(entries)) => match port_of(find_field(entries@, "master_port"@)) {
            Err(e) => Err(e),
            Ok(master_port) => match latency_of(find_field(entries@, "sim_latency_ms"@)) {
                Err(e) => Err(e),
                Ok(sim_latency_ms) => Ok(NetworkConfig { master_port, sim_latency_ms }),
            },
        },
        Some(node) => Err(
            parse_failure("network"@, wrong_type(node.kind_of(), "a mapping"@)),
        ),
    }
}

/// The runtime kind that the item at `index` names.
pub open spec fn runtime_of(node: Node, index: nat) -> Result<RuntimeKind, ErrorModel> {
    match node {
        Node::Text(name) => match RuntimeKind::named(name@) {
            Some(kind) => Ok(kind),
            None => Err(parse_failure(runtime_path(index), unknown_runtime(name@))),
        },
        _ => Err(parse_failure(runtime_path(index), wrong_type(node.kind_of(), "a runtime name"@))),
    }
}

/// The runtime kinds that `items` name, in their order, or the failure of
/// the first item that names none.
pub open spec fn runtimes_of_items(items: Seq<Node>) -> Result<Seq<RuntimeKind>, ErrorModel>
    decreases items.len(),
{
    if items.len() == 0 {
        Ok(Seq::empty())
    } else {
        match runtimes_of_items(items.drop_last()) {
            Err(e) => Err(e),
            Ok(kinds) => match runtime_of(items.last(), (items.len() - 1) as nat) {
                Ok(kind) => Ok(kinds.push(kind)),
                Err(e) => Err(e),
            },
        }
    }
}

/// The runtimes, read from the value of the field `runtimes`.
pub open spec fn runtimes_of(found: Option<Node>) -> Result<Seq<RuntimeKind>, ErrorModel> {
    match found {
        None => Err(parse_failure("runtimes"@, missing_field("runtimes"@))),
        Some(Node::Sequence(items)) => runtimes_of_items(items@),
        Some(node) => Err(parse_failure("runtimes"@, wrong_type(node.kind_of(), "a sequence"@))),
    }
}

/// The configuration that the entries of a document's root hold.
pub open spec fn config_of_entries(entries: Seq<(Node, Node)>) -> Result<ConfigModel, ErrorModel> {
    match account_of(find_field(entries, "account"@)) {
        Err(e) => Err(e),
        Ok(account) => match network_of(find_field(entries, "network"@)) {
            Err(e) => Err(e),
            Ok(network) => match runtimes_of(find_field(entries, "runtimes"@)) {
                Err(e) => Err(e),
                Ok(runtimes) => match optional_real(find_field(entries, "vix_gate"@), "vix_gate"@) {
                    Err(e) => Err(e),
                    Ok(vix_gate) => Ok(ConfigModel { account, network, runtimes, vix_gate }),
                },
            },
        },
    }
}

/// The configuration that a document holds. A null document counts as none.
pub open spec fn config_of_tree(root: Node) -> Result<ConfigModel, ErrorModel> {
    match root {
        Node::Null => Err(ErrorModel::EmptyDocument),
        Node::Mapping(entries) => config_of_entries(entries@),
        _ => Err(parse_failure("."@, wrong_type(root.kind_of(), "a mapping"@))),
    }
}

/// The configuration that a source gives, or the failure of reading it.
pub open spec fn validated(source: Source) -> Result<ConfigModel, ErrorModel> {
    match source {
        Source::Absent => Err(ErrorModel::EmptyDocument),
        Source::Malformed { path, cause } => Err(parse_failure(path@, cause@)),
        Source::Tree(root) => config_of_tree(root),
    }
}

/// Whether `result` is what the model `expected` describes.
pub open spec fn config_matches(
    result: Result<AppConfig, ConfigError>,
    expected: Result<ConfigModel, ErrorModel>,
) -> bool {
    match result {
        Ok(config) => expected == Ok::<ConfigModel, ErrorModel>(config@),
        Err(e) => expected == Err::<ConfigModel, ErrorModel>(e@),
    }
}

fn failure(path: &str, cause: String) -> (e: ConfigError)
    ensures
        e@ == parse_failure(path@, cause@),
{
    ConfigError::Parse { path: String::from_str(path), cause }
}

fn missing(name: &str) -> (cause: String)
    ensures
        cause@ == missing_field(name@),
{
    let mut cause = String::from_str("missing field `");
    cause.append(name);
    cause.append("`");
    cause
}

fn mismatch(node: &Node, expected: &str) -> (cause: String)
    ensures
        cause@ == wrong_type(node.kind_of(), expected@),
{
    let mut cause = String::from_str("invalid type: ");
    cause.append(node.kind());
    cause.append(", expected ");
    cause.append(expected);
    cause
}

fn read_real(node: &Node, path: &str) -> (r: Result<Real, ConfigError>)
    ensures
        match r {
            Ok(x) => real_of(*node, path@) == Ok::<Seq<char>, ErrorModel>(x@),
            Err(e) => real_of(*node, path@) == Err::<Seq<char>, ErrorModel>(e@),
        },
{
    match node {
        Node::Number { unsigned, decimal } => match Real::from_text(decimal.as_str()) {
            Some(x) => Ok(x),
            None => Err(failure(path, mismatch(node, "a number"))),
        },
        _ => Err(failure(path, mismatch(node, "a number"))),
    }
}

fn read_required_real(found: Option<&Node>, path: &str, name: &str) -> (r: Result<Real, ConfigError>)
    ensures
        match r {
            Ok(x) => required_real(deref_node(found), path@, name@) == Ok::<Seq<char>, ErrorModel>(
                x@,
            ),
            Err(e) => required_real(deref_node(found), path@, name@) == Err::<
                Seq<char>,
                ErrorModel,
            >(e@),
        },
{
    match found {
        Some(node) => read_real(node, path),
        None => Err(failure(path, missing(name))),
    }
}

fn read_optional_real(found: Option<&Node>, path: &str) -> (r: Result<Option<Real>, ConfigError>)
    ensures
        match r {
            Ok(Some(x)) => optional_real(deref_node(found), path@) == Ok::<
                Option<Seq<char>>,
                ErrorModel,
            >(Some(x@)),
            Ok(None) => optional_real(deref_node(found), path@) == Ok::<
                Option<Seq<char>>,
                ErrorModel,
            >(None),
            Err(e) => optional_real(deref_node(found), path@) == Err::<
                Option<Seq<char>>,
                ErrorModel,
            >(e@),
        },
{
    match found {
        None => Ok(None),
        Some(Node::Null) => Ok(None),
        Some(node) => match read_real(node, path) {
            Ok(x) => Ok(Some(x)),
            Err(e) => Err(e),
        },
    }
}

fn read_unsigned(node: &Node, path: &str, limit: u64, expected: &str) -> (r: Result<
    u64,
    ConfigError,
>)
    ensures
        match r {
            Ok(n) => unsigned_of(*node, path@, limit, expected@) == Ok::<u64, ErrorModel>(n),
            Err(e) => unsigned_of(*node, path@, limit, expected@) == Err::<u64, ErrorModel>(e@),
        },
{
    match node {
        Node::Number { unsigned: Some(n), decimal } => {
            if *n <= limit {
                Ok(*n)
            } else {
                let mut cause = String::from_str("invalid value: integer `");
                cause.append(decimal_string(*n).as_str());
                cause.append("`, expected ");
                cause.append(expected);
                Err(failure(path, cause))
            }
        },
        _ => Err(failure(path, mismatch(node, expected))),
    }
}

fn read_account(found: Option<&Node>) -> (r: Result<AccountConfig, ConfigError>)
    ensures
        match r {
            Ok(account) => account_of(deref_node(found)) == Ok::<AccountModel, ErrorModel>(
                account@,
            ),
            Err(e) => account_of(deref_node(found)) == Err::<AccountModel, ErrorModel>(e@),
        },
{
    match found {
        None => Err(failure("account", missing("account"))),
        Some(Node::Mapping(entries)) => {
            let size = match read_required_real(field(entries, "size"), "account.size", "size") {
                Ok(x) => x,
                Err(e) => {
                    return Err(e);
                },
            };
            let risk_per_trade = match read_required_real(
                field(entries, "risk_per_trade"),
                "account.risk_per_trade",
                "risk_per_trade",
            ) {
                Ok(x) => x,
                Err(e) => {
                    return Err(e);
                },
            };
            Ok(AccountConfig { size, risk_per_trade })
        },
        Some(node) => Err(failure("account", mismatch(node, "a mapping"))),
    }
}

fn read_port(found: Option<&Node>) -> (r: Result<u16, ConfigError>)
    ensures
        match r {
            Ok(port) => port_of(deref_node(found)) == Ok::<u16, ErrorModel>(port),
            Err(e) => port_of(deref_node(found)) == Err::<u16, ErrorModel>(e@),
        },
{
    match found {
        None => Err(failure("network.master_port", missing("master_port"))),
        Some(node) => match read_unsigned(node, "network.master_port", 65535, "an integer from 0 to 65535") {
            Ok(n) => Ok(n as u16),
            Err(e) => Err(e),
        },
    }
}

fn read_latency(found: Option<&Node>) -> (r: Result<Option<u64>, ConfigError>)
    ensures
        match r {
            Ok(latency) => latency_of(deref_node(found)) == Ok::<Option<u64>, ErrorModel>(latency),
            Err(e) => latency_of(deref_node(found)) == Err::<Option<u64>, ErrorModel>(e@),
        },
{
    match found {
        None => Ok(None),
        Some(Node::Null) => Ok(None),
        Some(node) => match read_unsigned(node, "network.sim_latency_ms", u64::MAX, "an unsigned integer") {
            Ok(n) => Ok(Some(n)),
            Err(e) => Err(e),
        },
    }
}

fn read_network(found: Option<&Node>) -> (r: Result<NetworkConfig, ConfigError>)
    ensures
        match r {
            Ok(network) => network_of(deref_node(found)) == Ok::<NetworkConfig, ErrorModel>(
                network,
            ),
            Err(e) => network_of(deref_node(found)) == Err::<NetworkConfig, ErrorModel>(e@),
        },
{
    match found {
        None => Err(failure("network", missing("network"))),
        Some(Node::Mapping(entries)) => {
            let master_port = match read_port(field(entries, "master_port")) {
                Ok(port) => port,
                Err(e) => {
                    return Err(e);
                },
            };
            let sim_latency_ms = match read_latency(field(entries, "sim_latency_ms")) {
                Ok(latency) => latency,
                Err(e) => {
                    return Err(e);
                },
            };
            Ok(NetworkConfig { master_port, sim_latency_ms })
        },
        Some(node) => Err(failure("network", mismatch(node, "a mapping"))),
    }
}

fn read_runtime(node: &Node, index: usize) -> (r: Result<RuntimeKind, ConfigError>)
    ensures
        match r {
            Ok(kind) => runtime_of(*node, index as nat) == Ok::<RuntimeKind, ErrorModel>(kind),
            Err(e) => runtime_of(*node, index as nat) == Err::<RuntimeKind, ErrorModel>(e@),
        },
{
    let kind = match node {
        Node::Text(name) => RuntimeKind::from_name(name.as_str()),
        _ => None,
    };
    match kind {
        Some(kind) => Ok(kind),
        None => {
            let mut path = String::from_str("runtimes[");
            path.append(decimal_string(index as u64).as_str());
            path.append("]");
            let cause = match node {
                Node::Text(name) => {
                    let mut cause = String::from_str("unknown variant `");
                    cause.append(name.as_str());
                    cause.append("`, expected one of `python`, `rust`, `node`");
                    cause
                },
                _ => mismatch(node, "a runtime name"),
            };
            Err(failure(path.as_str(), cause))
        },
    }
}

fn read_runtimes(found: Option<&Node>) -> (r: Result<Vec<RuntimeKind>, ConfigError>)
    ensures
        match r {
            Ok(kinds) => runtimes_of(deref_node(found)) == Ok::<Seq<RuntimeKind>, ErrorModel>(
                kinds@,
            ),
            Err(e) => runtimes_of(deref_node(found)) == Err::<Seq<RuntimeKind>, ErrorModel>(e@),
        },
{
    match found {
        None => Err(failure("runtimes", missing("runtimes"))),
        Some(Node::Sequence(items)) => {
            let mut kinds: Vec<RuntimeKind> = Vec::new();
            let mut i: usize = 0;
            while i < items.len()
                invariant
                    i <= items.len(),
                    deref_node(found) == Some(Node::Sequence(*items)),
                    runtimes_of_items(items@.take(i as int)) == Ok::<
                        Seq<RuntimeKind>,
                        ErrorModel,
                    >(kinds@),
                decreases items.len() - i,
            {
                proof {
                    assert(items@.take(i + 1).drop_last() =~= items@.take(i as int));
                    assert(items@.take(i + 1).last() == items@[i as int]);
                }
                match read_runtime(&items[i], i) {
                    Ok(kind) => {
                        kinds.push(kind);
                    },
                    Err(e) => {
                        proof {
                            lemma_failure_stays(items@, i + 1);
                        }
                        return Err(e);
                    },
                }
                i += 1;
            }
            assert(items@.take(i as int) =~= items@);
            Ok(kinds)
        },
        Some(node) => Err(failure("runtimes", mismatch(node, "a sequence"))),
    }
}

/// Once the items up to some length fail, all of them together fail in the
/// same way: the first failure is the one that is reported.
pub proof fn lemma_failure_stays(items: Seq<Node>, length: int)
    requires
        0 <= length <= items.len(),
        runtimes_of_items(items.take(length)) is Err,
    ensures
        runtimes_of_items(items) == runtimes_of_items(items.take(length)),
    decreases items.len() - length,
{
    if length < items.len() {
        assert(items.take(length + 1).drop_last() =~= items.take(length));
        lemma_failure_stays(items, length + 1);
    } else {
        assert(items.take(length) =~= items);
    }
}

/// Reads a source as a configuration: the configuration that it holds, or
/// the first failure, with its path.
pub fn validate(source: &Source) -> (r: Result<AppConfig, ConfigError>)
    ensures
        config_matches(r, validated(*source)),
        r matches Ok(config) ==> config@.well_formed(),
{
    proof {
        lemma_validated_is_well_formed(*source);
    }
    match source {
        Source::Absent => Err(ConfigError::EmptyDocument),
        Source::Malformed { path, cause } => Err(
            ConfigError::Parse { path: path.clone(), cause: cause.clone() },
        ),
        Source::Tree(Node::Null) => Err(ConfigError::EmptyDocument),
        Source::Tree(Node::Mapping(entries)) => {
            let account = match read_account(field(entries, "account")) {
                Ok(account) => account,
                Err(e) => {
                    return Err(e);
                },
            };
            let network = match read_network(field(entries, "network")) {
                Ok(network) => network,
                Err(e) => {
                    return Err(e);
                },
            };
            let runtimes = match read_runtimes(field(entries, "runtimes")) {
                Ok(runtimes) => runtimes,
                Err(e) => {
                    return Err(e);
                },
            };
            let vix_gate = match read_optional_real(field(entries, "vix_gate"), "vix_gate") {
                Ok(gate) => gate,
                Err(e) => {
                    return Err(e);
                },
            };
            Ok(AppConfig { account, network, runtimes, vix_gate })
        },
        Source::Tree(root) => Err(failure(".", mismatch(root, "a mapping"))),
    }
}

/// Reads the first document of `text` as a configuration. Documents after
/// the first are ignored.
pub fn load(text: &str) -> (r: Result<AppConfig, ConfigError>)
    ensures
        config_matches(r, validated(yaml_first_document(text@))),
        r matches Ok(config) ==> config@.well_formed(),
{
    let source = first_document(text);
    validate(&source)
}

/// A document whose account holds no field `size` fails at `account.size`,
/// whatever else it holds.
pub proof fn lemma_missing_size_is_located(root: Node)
    requires
        root matches Node::Mapping(entries) && find_field(entries@, "account"@) matches Some(
            Node::Mapping(account),
        ) && find_field(account@, "size"@) is None,
    ensures
        validated(Source::Tree(root)) == Err::<ConfigModel, ErrorModel>(
            parse_failure("account.size"@, missing_field("size"@)),
        ),
{
}

/// Reading fails only because there is no document or because the document
/// does not fit at some path; and a document fails as empty exactly where
/// it is null.
pub proof fn lemma_failures_of_reading(source: Source)
    ensures
        validated(source) matches Err(e) ==> e is EmptyDocument || e is Parse,
        source matches Source::Tree(root) ==> (validated(source) == Err::<ConfigModel, ErrorModel>(
            ErrorModel::EmptyDocument,
        ) <==> root is Null),
{
    if let Source::Tree(Node::Mapping(entries)) = source {
        let top = entries@;
        if let Some(Node::Sequence(items)) = find_field(top, "runtimes"@) {
            lemma_item_failures_are_located(items@);
        }
    }
}

/// The failure of an item of the runtimes is one of the document.
pub proof fn lemma_item_failures_are_located(items: Seq<Node>)
    ensures
        runtimes_of_items(items) matches Err(e) ==> e is Parse,
        runtimes_of_items(items) matches Ok(kinds) ==> kinds.len() == items.len(),
    decreases items.len(),
{
    if items.len() > 0 {
        lemma_item_failures_are_located(items.drop_last());
    }
}

/// The latency and the volatility gate may be left out or null, and are then
/// absent from the configuration; every other field is required.
pub proof fn lemma_optional_fields(entries: Seq<(Node, Node)>)
    ensures
        config_of_entries(entries) matches Ok(config) ==> {
            &&& find_field(entries, "account"@) is Some
            &&& find_field(entries, "network"@) matches Some(Node::Mapping(network))
            &&& find_field(network@, "master_port"@) is Some
            &&& find_field(entries, "runtimes"@) is Some
            &&& (find_field(network@, "sim_latency_ms"@) is None || find_field(
                network@,
                "sim_latency_ms"@,
            ) == Some(Node::Null) <==> config.network.sim_latency_ms is None)
            &&& (find_field(entries, "vix_gate"@) is None || find_field(entries, "vix_gate"@)
                == Some(Node::Null) <==> config.vix_gate is None)
        },
{
}

/// Every real number of a configuration that was read is the notation of one.
pub proof fn lemma_validated_is_well_formed(source: Source)
    ensures
        validated(source) matches Ok(config) ==> config.well_formed(),
{
}

} // verus!
