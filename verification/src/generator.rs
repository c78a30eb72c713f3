//! Rendering a configuration as `KEY=VALUE` lines.

use crate::decimal::{decimal_digits, decimal_string, lemma_decimal_digits_are_digits};
use crate::lines::{
    assignment, has_key, is_one_line, lemma_assignment_has_its_key, lemma_lines_of_terminated, lines_of,
    terminated,
};
use crate::model::{AppConfig, ConfigModel};
use crate::number::{is_real_text, lemma_real_text_is_one_word, Real};
use vstd::prelude::*;

verus! {

/// The value of the latency line: the number, or nothing where there is none.
pub open spec fn latency_text(latency: Option<u64>) -> Seq<char> {
    match latency {
        Some(ms) => decimal_digits(ms as nat),
        None => Seq::empty(),
    }
}

/// The line of a key that is written only where it has a value.
pub open spec fn optional_line(key: Seq<char>, value: Option<Seq<char>>) -> Seq<Seq<char>> {
    match value {
        Some(v) => seq![assignment(key, v)],
        None => Seq::empty(),
    }
}

/// The label that a caller asked for, as plain text.
pub open spec fn label_of(runtime: Option<&str>) -> Option<Seq<char>> {
    match runtime {
        Some(label) => Some(label@),
        None => None,
    }
}

/// The lines of a configuration, in their fixed order. `max_loss` is the
/// derived maximum loss per trade; `runtime` is the caller's label, free text.
pub open spec fn env_lines_of(
    config: ConfigModel,
    max_loss: Seq<char>,
    runtime: Option<Seq<char>>,
) -> Seq<Seq<char>> {
    seq![
        assignment("ACCOUNT_SIZE"@, config.account.size),
        assignment("RISK_PER_TRADE"@, config.account.risk_per_trade),
        assignment("MAX_LOSS_PER_TRADE"@, max_loss),
        assignment("MASTER_PORT"@, decimal_digits(config.network.master_port as nat)),
        assignment("SIM_LATENCY_MS"@, latency_text(config.network.sim_latency_ms)),
    ] + optional_line("VIX_GATE"@, config.vix_gate) + optional_line("TARGET_RUNTIME"@, runtime)
}

/// The rendered output of a configuration.
pub open spec fn env_text_of(
    config: ConfigModel,
    max_loss: Seq<char>,
    runtime: Option<Seq<char>>,
) -> Seq<char> {
    terminated(env_lines_of(config, max_loss, runtime))
}

fn assign(key: &str, value: &str) -> (line: String)
    ensures
        line@ == assignment(key@, value@),
{
    proof {
        reveal_strlit("=");
    }
    let mut line = String::from_str(key);
    line.append("=");
    line.append(value);
    assert(line@ =~= assignment(key@, value@));
    line
}

/// Renders the lines of `config`, with the derived `max_loss` and, where the
/// caller gave one, the `runtime` label.
///
/// Unless the label holds a line feed, none of the lines holds one.
pub fn env_lines(config: &AppConfig, max_loss: &Real, runtime: Option<&str>) -> (lines: Vec<String>)
    ensures
        lines.deep_view() == env_lines_of(config@, max_loss@, label_of(runtime)),
        (runtime matches Some(label) ==> is_one_line(label@)) ==> forall|i: int|
            0 <= i < lines.len() ==> is_one_line(#[trigger] lines.deep_view()[i]),
{
    let port = decimal_string(config.network.master_port as u64);
    let latency = match config.network.sim_latency_ms {
        Some(ms) => decimal_string(ms),
        None => String::new(),
    };
    let mut lines: Vec<String> = Vec::new();
    lines.push(assign("ACCOUNT_SIZE", config.account.size.as_str()));
    lines.push(assign("RISK_PER_TRADE", config.account.risk_per_trade.as_str()));
    lines.push(assign("MAX_LOSS_PER_TRADE", max_loss.as_str()));
    lines.push(assign("MASTER_PORT", port.as_str()));
    lines.push(assign("SIM_LATENCY_MS", latency.as_str()));
    if let Some(gate) = &config.vix_gate {
        lines.push(assign("VIX_GATE", gate.as_str()));
    }
    if let Some(label) = runtime {
        lines.push(assign("TARGET_RUNTIME", label));
    }
    assert(lines.deep_view() =~= env_lines_of(config@, max_loss@, label_of(runtime)));
    proof {
        if runtime matches Some(label) ==> is_one_line(label@) {
            lemma_lines_are_lines(config@, max_loss@, label_of(runtime));
        }
    }
    lines
}

/// Renders `config` as the text of an environment file: the lines of
/// [`env_lines`] in order, each ended by a line feed.
///
/// Unless the label holds a line feed, the text splits at its line feeds into
/// exactly those lines.
pub fn generate(config: &AppConfig, max_loss: &Real, runtime: Option<&str>) -> (text: String)
    ensures
        text@ == env_text_of(config@, max_loss@, label_of(runtime)),
        (runtime matches Some(label) ==> is_one_line(label@)) ==> lines_of(text@) == env_lines_of(
            config@,
            max_loss@,
            label_of(runtime),
        ),
{
    let lines = env_lines(config, max_loss, runtime);
    proof {
        if runtime matches Some(label) ==> is_one_line(label@) {
            lemma_lines_of_terminated(lines.deep_view());
        }
    }
    let ghost all = lines.deep_view();
    let mut text = String::new();
    let mut i: usize = 0;
    while i < lines.len()
        invariant
            i <= lines.len(),
            all == lines.deep_view(),
            text@ == terminated(all.take(i as int)),
        decreases lines.len() - i,
    {
        proof {
            reveal_strlit("\n");
            assert(all.take(i + 1).drop_last() =~= all.take(i as int));
            assert(all.take(i + 1).last() == lines[i as int]@);
        }
        text.append(lines[i].as_str());
        text.append("\n");
        i += 1;
        assert(text@ =~= terminated(all.take(i as int)));
    }
    assert(all.take(i as int) =~= all);
    text
}

proof fn lemma_first_characters()
    ensures
        "ACCOUNT_SIZE"@.len() == 12 && "ACCOUNT_SIZE"@[0] == 'A',
        "RISK_PER_TRADE"@.len() == 14 && "RISK_PER_TRADE"@[0] == 'R',
        "MAX_LOSS_PER_TRADE"@.len() == 18 && "MAX_LOSS_PER_TRADE"@[0] == 'M',
        "MASTER_PORT"@.len() == 11 && "MASTER_PORT"@[0] == 'M',
        "SIM_LATENCY_MS"@.len() == 14 && "SIM_LATENCY_MS"@[0] == 'S',
        "VIX_GATE"@.len() == 8 && "VIX_GATE"@[0] == 'V',
        "TARGET_RUNTIME"@.len() == 14 && "TARGET_RUNTIME"@[0] == 'T',
{
    reveal_strlit("ACCOUNT_SIZE");
    reveal_strlit("RISK_PER_TRADE");
    reveal_strlit("MAX_LOSS_PER_TRADE");
    reveal_strlit("MASTER_PORT");
    reveal_strlit("SIM_LATENCY_MS");
    reveal_strlit("VIX_GATE");
    reveal_strlit("TARGET_RUNTIME");
}

/// The same configuration, the same derived value and the same label give the
/// same output, character for character.
pub proof fn lemma_rendering_is_deterministic(
    first: AppConfig,
    second: AppConfig,
    first_loss: Real,
    second_loss: Real,
    runtime: Option<Seq<char>>,
)
    requires
        first@ == second@,
        first_loss@ == second_loss@,
    ensures
        env_lines_of(first@, first_loss@, runtime) == env_lines_of(second@, second_loss@, runtime),
        env_text_of(first@, first_loss@, runtime) == env_text_of(second@, second_loss@, runtime),
{
}

/// The first five lines are always written, in this order; the output has
/// one line more for a volatility gate and one more for a label.
pub proof fn lemma_fixed_lines(config: ConfigModel, max_loss: Seq<char>, runtime: Option<Seq<char>>)
    ensures
        ({
            let lines = env_lines_of(config, max_loss, runtime);
            &&& lines.len() == 5 + (if config.vix_gate is Some { 1int } else { 0 }) + (if runtime is Some {
                1int
            } else {
                0
            })
            &&& lines[0] == assignment("ACCOUNT_SIZE"@, config.account.size)
            &&& lines[1] == assignment("RISK_PER_TRADE"@, config.account.risk_per_trade)
            &&& lines[2] == assignment("MAX_LOSS_PER_TRADE"@, max_loss)
            &&& lines[3] == assignment(
                "MASTER_PORT"@,
                decimal_digits(config.network.master_port as nat),
            )
            &&& lines[4] == assignment(
                "SIM_LATENCY_MS"@,
                latency_text(config.network.sim_latency_ms),
            )
        }),
{
}

/// The latency key is written whether or not the configuration has a
/// latency: without one its value is empty.
pub proof fn lemma_latency_key_is_always_written(
    config: ConfigModel,
    max_loss: Seq<char>,
    runtime: Option<Seq<char>>,
)
    ensures
        has_key(env_lines_of(config, max_loss, runtime)[4], "SIM_LATENCY_MS"@),
        config.network.sim_latency_ms is None ==> env_lines_of(config, max_loss, runtime)[4]
            == "SIM_LATENCY_MS="@,
        config.network.sim_latency_ms matches Some(ms) ==> env_lines_of(
            config,
            max_loss,
            runtime,
        )[4] == "SIM_LATENCY_MS="@ + decimal_digits(ms as nat),
{
    lemma_fixed_lines(config, max_loss, runtime);
    lemma_assignment_has_its_key(
        "SIM_LATENCY_MS"@,
        latency_text(config.network.sim_latency_ms),
        "SIM_LATENCY_MS"@,
    );
    reveal_strlit("SIM_LATENCY_MS");
    reveal_strlit("SIM_LATENCY_MS=");
    assert("SIM_LATENCY_MS"@ + seq!['='] =~= "SIM_LATENCY_MS="@);
    assert("SIM_LATENCY_MS"@ + seq!['='] + Seq::<char>::empty() =~= "SIM_LATENCY_MS="@);
}

/// A configuration without a volatility gate has no line for it at all; one
/// with a gate has it as its sixth line.
pub proof fn lemma_gate_line(config: ConfigModel, max_loss: Seq<char>, runtime: Option<Seq<char>>)
    ensures
        config.vix_gate is None ==> forall|i: int|
            0 <= i < env_lines_of(config, max_loss, runtime).len() ==> !has_key(
                #[trigger] env_lines_of(config, max_loss, runtime)[i],
                "VIX_GATE"@,
            ),
        config.vix_gate matches Some(gate) ==> env_lines_of(config, max_loss, runtime)[5]
            == assignment("VIX_GATE"@, gate),
{
    let lines = env_lines_of(config, max_loss, runtime);
    lemma_fixed_lines(config, max_loss, runtime);
    lemma_first_characters();
    if config.vix_gate is None {
        let key = "VIX_GATE"@;
        lemma_assignment_has_its_key("ACCOUNT_SIZE"@, config.account.size, key);
        lemma_assignment_has_its_key("RISK_PER_TRADE"@, config.account.risk_per_trade, key);
        lemma_assignment_has_its_key("MAX_LOSS_PER_TRADE"@, max_loss, key);
        lemma_assignment_has_its_key(
            "MASTER_PORT"@,
            decimal_digits(config.network.master_port as nat),
            key,
        );
        lemma_assignment_has_its_key(
            "SIM_LATENCY_MS"@,
            latency_text(config.network.sim_latency_ms),
            key,
        );
        if let Some(label) = runtime {
            lemma_assignment_has_its_key("TARGET_RUNTIME"@, label, key);
            assert(lines[5] == assignment("TARGET_RUNTIME"@, label));
        }
    }
}

/// With a label the output has exactly one line for the target runtime, its
/// last, and that line holds the label as it was given; without a label it
/// has none.
pub proof fn lemma_runtime_line(config: ConfigModel, max_loss: Seq<char>, runtime: Option<Seq<char>>)
    ensures
        runtime matches Some(label) ==> env_lines_of(config, max_loss, runtime).last()
            == assignment("TARGET_RUNTIME"@, label),
        forall|i: int|
            0 <= i < env_lines_of(config, max_loss, runtime).len() ==> (has_key(
                #[trigger] env_lines_of(config, max_loss, runtime)[i],
                "TARGET_RUNTIME"@,
            ) <==> runtime is Some && i == env_lines_of(config, max_loss, runtime).len() - 1),
{
    let lines = env_lines_of(config, max_loss, runtime);
    let key = "TARGET_RUNTIME"@;
    lemma_fixed_lines(config, max_loss, runtime);
    lemma_first_characters();
    lemma_assignment_has_its_key("ACCOUNT_SIZE"@, config.account.size, key);
    lemma_assignment_has_its_key("RISK_PER_TRADE"@, config.account.risk_per_trade, key);
    lemma_assignment_has_its_key("MAX_LOSS_PER_TRADE"@, max_loss, key);
    lemma_assignment_has_its_key(
        "MASTER_PORT"@,
        decimal_digits(config.network.master_port as nat),
        key,
    );
    lemma_assignment_has_its_key(
        "SIM_LATENCY_MS"@,
        latency_text(config.network.sim_latency_ms),
        key,
    );
    if let Some(gate) = config.vix_gate {
        lemma_assignment_has_its_key("VIX_GATE"@, gate, key);
        assert(lines[5] == assignment("VIX_GATE"@, gate));
    }
    if let Some(label) = runtime {
        lemma_assignment_has_its_key(key, label, key);
        assert(lines.last() == assignment(key, label));
    }
}

/// Every line of a well-formed configuration is one line of the output: none
/// holds a line feed, unless the caller's label holds one.
pub proof fn lemma_lines_are_lines(config: ConfigModel, max_loss: Seq<char>, runtime: Option<Seq<char>>)
    requires
        config.well_formed(),
        is_real_text(max_loss),
        runtime matches Some(label) ==> is_one_line(label),
    ensures
        forall|i: int|
            0 <= i < env_lines_of(config, max_loss, runtime).len() ==> is_one_line(
                #[trigger] env_lines_of(config, max_loss, runtime)[i],
            ),
{
    let lines = env_lines_of(config, max_loss, runtime);
    lemma_fixed_lines(config, max_loss, runtime);
    reveal_strlit("ACCOUNT_SIZE");
    reveal_strlit("RISK_PER_TRADE");
    reveal_strlit("MAX_LOSS_PER_TRADE");
    reveal_strlit("MASTER_PORT");
    reveal_strlit("SIM_LATENCY_MS");
    reveal_strlit("VIX_GATE");
    reveal_strlit("TARGET_RUNTIME");
    lemma_real_text_is_one_word(config.account.size);
    lemma_real_text_is_one_word(config.account.risk_per_trade);
    lemma_real_text_is_one_word(max_loss);
    lemma_decimal_digits_are_digits(config.network.master_port as nat);
    if let Some(ms) = config.network.sim_latency_ms {
        lemma_decimal_digits_are_digits(ms as nat);
    }
    assert(is_one_line(lines[0]));
    assert(is_one_line(lines[1]));
    assert(is_one_line(lines[2]));
    assert(is_one_line(lines[3]));
    assert(is_one_line(lines[4]));
    if let Some(gate) = config.vix_gate {
        lemma_real_text_is_one_word(gate);
        assert(lines[5] == assignment("VIX_GATE"@, gate));
        assert(is_one_line(lines[5]));
    }
    if let Some(label) = runtime {
        assert(lines.last() == assignment("TARGET_RUNTIME"@, label));
        assert(is_one_line(lines.last()));
    }
}

/// The rendered text of a well-formed configuration splits at its line feeds
/// into the lines that were written, unless the caller's label holds a line
/// feed: what holds of the lines holds of the text.
pub proof fn lemma_text_splits_into_its_lines(
    config: ConfigModel,
    max_loss: Seq<char>,
    runtime: Option<Seq<char>>,
)
    requires
        config.well_formed(),
        is_real_text(max_loss),
        runtime matches Some(label) ==> is_one_line(label),
    ensures
        lines_of(env_text_of(config, max_loss, runtime)) == env_lines_of(config, max_loss, runtime),
{
    lemma_lines_are_lines(config, max_loss, runtime);
    lemma_lines_of_terminated(env_lines_of(config, max_loss, runtime));
}

} // verus!
