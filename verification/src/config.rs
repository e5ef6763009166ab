use vstd::prelude::*;

use crate::naming::{decimal, decimal_string};

verus! {

/// The environment variable read for the number of threads when the
/// configuration names none.
pub const DEFAULT_ENV_VAR: &'static str = "ASYNC_GLOBAL_EXECUTOR_THREADS";

// ---------------------------------------------------------------------------
// The thread count written in an environment variable
// ---------------------------------------------------------------------------

pub open spec fn is_digit(c: char) -> bool {
    '0' as int <= c as int <= '9' as int
}

pub open spec fn digit_value(c: char) -> nat {
    (c as int - '0' as int) as nat
}

pub open spec fn all_digits(s: Seq<char>) -> bool {
    forall|i: int| 0 <= i < s.len() ==> is_digit(#[trigger] s[i])
}

/// The number that the decimal digits `s` denote.
pub open spec fn digits_value(s: Seq<char>) -> nat
    decreases s.len(),
{
    if s.len() == 0 {
        0
    } else {
        digits_value(s.drop_last()) * 10 + digit_value(s.last())
    }
}

/// `s` without the one `+` sign it may start with.
pub open spec fn unsigned_digits(s: Seq<char>) -> Seq<char> {
    if s.len() > 0 && s[0] == '+' {
        s.drop_first()
    } else {
        s
    }
}

/// The thread count that the text `s` gives: an optional `+` followed by at
/// least one decimal digit and nothing else, denoting a number that fits in a
/// `usize`. Any other text gives none.
pub open spec fn parsed_thread_count(s: Seq<char>) -> Option<usize> {
    let d = unsigned_digits(s);
    if d.len() > 0 && all_digits(d) && digits_value(d) <= usize::MAX {
        Some(digits_value(d) as usize)
    } else {
        None
    }
}

/// Appending a digit never makes the value of a digit string smaller.
proof fn lemma_digits_value_prefix(s: Seq<char>, k: int)
    requires
        0 <= k <= s.len(),
        all_digits(s),
    ensures
        digits_value(s.subrange(0, k)) <= digits_value(s),
    decreases s.len() - k,
{
    if k < s.len() {
        lemma_digits_value_prefix(s, k + 1);
        let p = s.subrange(0, k + 1);
        assert(p.drop_last() =~= s.subrange(0, k));
        assert(is_digit(s[k]));
    } else {
        assert(s.subrange(0, k) =~= s);
    }
}

/// Reads a thread count from the text of an environment variable.
pub fn parse_thread_count(s: &str) -> (r: Option<usize>)
    ensures
        r == parsed_thread_count(s@),
{
    let len = s.unicode_len();
    let mut start: usize = 0;
    if len > 0 && s.get_char(0) == '+' {
        start = 1;
    }
    let ghost d = unsigned_digits(s@);
    assert(d =~= s@.subrange(start as int, len as int));
    if start == len {
        return None;
    }
    let mut i: usize = start;
    let mut value: usize = 0;
    while i < len
        invariant
            start <= i <= len,
            len == s@.len(),
            d =~= s@.subrange(start as int, len as int),
            d == unsigned_digits(s@),
            all_digits(d.subrange(0, i - start)),
            value == digits_value(d.subrange(0, i - start)),
        decreases len - i,
    {
        let c = s.get_char(i);
        let code = c as u32;
        if code < 48 || code > 57 {
            assert(d[i - start] == c);
            assert(!is_digit(c));
            assert(!all_digits(d));
            return None;
        }
        let digit = (code - 48) as usize;
        let ghost prefix = d.subrange(0, i - start);
        let ghost next = d.subrange(0, i - start + 1);
        assert(next.drop_last() =~= prefix);
        assert(next.last() == c);
        assert(digit_value(c) == digit);
        match value.checked_mul(10) {
            None => {
                proof {
                    if all_digits(d) {
                        lemma_digits_value_prefix(d, i - start + 1);
                    }
                }
                return None;
            },
            Some(v) => match v.checked_add(digit) {
                None => {
                    proof {
                        if all_digits(d) {
                            lemma_digits_value_prefix(d, i - start + 1);
                        }
                    }
                    return None;
                },
                Some(w) => {
                    value = w;
                },
            },
        }
        i = i + 1;
        assert forall|j: int| 0 <= j < next.len() implies is_digit(#[trigger] next[j]) by {
            if j < prefix.len() {
                assert(next[j] == prefix[j]);
            }
        }
    }
    assert(d.subrange(0, i - start) =~= d);
    Some(value)
}

// ---------------------------------------------------------------------------
// The configuration given by the user
// ---------------------------------------------------------------------------

/// What a [`GlobalExecutorConfig`] holds.
pub struct ExecutorConfigView {
    pub env_var: Option<Seq<char>>,
    pub min_threads: Option<usize>,
    pub max_threads: Option<usize>,
}

/// Configuration to init the thread pool for the multi-threaded global executor.
pub struct GlobalExecutorConfig {
    /// The environment variable from which we'll try to parse the number of threads to spawn.
    env_var: Option<&'static str>,
    /// The minimum number of threads to spawn.
    min_threads: Option<usize>,
    /// The maximum number of threads to spawn.
    max_threads: Option<usize>,
}

impl View for GlobalExecutorConfig {
    type V = ExecutorConfigView;

    closed spec fn view(&self) -> ExecutorConfigView {
        ExecutorConfigView {
            env_var: match self.env_var {
                Some(v) => Some(v@),
                None => None,
            },
            min_threads: self.min_threads,
            max_threads: self.max_threads,
        }
    }
}

impl Default for GlobalExecutorConfig {
    fn default() -> (r: Self)
        ensures
            r@ == ExecutorConfigView::unconfigured(),
    {
        GlobalExecutorConfig { env_var: None, min_threads: None, max_threads: None }
    }
}

/// The view of an optional text.
pub open spec fn opt_text(s: Option<&str>) -> Option<Seq<char>> {
    match s {
        Some(v) => Some(v@),
        None => None,
    }
}

impl ExecutorConfigView {
    /// The configuration that sets nothing.
    pub open spec fn unconfigured() -> ExecutorConfigView {
        ExecutorConfigView { env_var: None, min_threads: None, max_threads: None }
    }

    /// The thread count read from the environment variable's value, if it
    /// holds one.
    pub open spec fn env_threads(self, env_value: Option<Seq<char>>) -> Option<usize> {
        match env_value {
            Some(v) => parsed_thread_count(v),
            None => None,
        }
    }

    /// The minimum number of threads: the count in the environment variable,
    /// else the configured minimum, else the number of CPUs; at least 1.
    pub open spec fn sealed_min_threads(self, env_value: Option<Seq<char>>, cpus: usize) -> usize {
        let chosen: usize = match self.env_threads(env_value) {
            Some(n) => n,
            None => match self.min_threads {
                Some(m) => m,
                None => cpus,
            },
        };
        if chosen < 1 {
            1
        } else {
            chosen
        }
    }

    /// Whether sealing can compute the default maximum, four times the
    /// minimum, without overflow.
    pub open spec fn can_seal(self, env_value: Option<Seq<char>>, cpus: usize) -> bool {
        self.sealed_min_threads(env_value, cpus) * 4 <= usize::MAX
    }

    /// The maximum number of threads: the configured maximum, else four
    /// times the minimum; never below the minimum.
    pub open spec fn sealed_max_threads(self, env_value: Option<Seq<char>>, cpus: usize) -> usize {
        let min = self.sealed_min_threads(env_value, cpus);
        match self.max_threads {
            Some(m) => if m < min {
                min
            } else {
                m
            },
            None => (min * 4) as usize,
        }
    }

    /// The sealed configuration, where it can be computed.
    pub open spec fn sealed(self, env_value: Option<Seq<char>>, cpus: usize) -> Option<ConfigView> {
        if self.can_seal(env_value, cpus) {
            Some(
                ConfigView {
                    min_threads: self.sealed_min_threads(env_value, cpus),
                    max_threads: self.sealed_max_threads(env_value, cpus),
                },
            )
        } else {
            None
        }
    }
}

/// Calls `num_cpus::get`: the number of logical CPUs available to the current
/// process, which the crate documents to be always at least 1. The count
/// depends on the machine, so nothing more is said of it.
#[verifier::external_body]
pub(crate) fn available_cpus() -> (n: usize)
    ensures
        n >= 1,
{
    num_cpus::get()
}

impl GlobalExecutorConfig {
    /// Use the specified environment variable to find the number of threads to spawn.
    pub fn with_env_var(self, env_var: &'static str) -> (r: Self)
        ensures
            r@ == (ExecutorConfigView { env_var: Some(env_var@), ..self@ }),
    {
        GlobalExecutorConfig { env_var: Some(env_var), ..self }
    }

    /// Use the specified value as the minimum number of threads.
    pub fn with_min_threads(self, min_threads: usize) -> (r: Self)
        ensures
            r@ == (ExecutorConfigView { min_threads: Some(min_threads), ..self@ }),
    {
        GlobalExecutorConfig { min_threads: Some(min_threads), ..self }
    }

    /// Use the specified value as the maximum number of threads.
    pub fn with_max_threads(self, max_threads: usize) -> (r: Self)
        ensures
            r@ == (ExecutorConfigView { max_threads: Some(max_threads), ..self@ }),
    {
        GlobalExecutorConfig { max_threads: Some(max_threads), ..self }
    }

    /// The name of the environment variable that holds the number of threads.
    pub fn env_var_name(&self) -> (r: &'static str)
        ensures
            r@ == match self@.env_var {
                Some(v) => v,
                None => DEFAULT_ENV_VAR@,
            },
    {
        match self.env_var {
            Some(v) => v,
            None => DEFAULT_ENV_VAR,
        }
    }

    /// The minimum number of threads, given the environment variable's value
    /// and the number of CPUs.
    pub fn sealed_min_threads(&self, env_value: Option<&str>, cpus: usize) -> (r: usize)
        ensures
            r == self@.sealed_min_threads(opt_text(env_value), cpus),
    {
        let from_env = match env_value {
            Some(v) => parse_thread_count(v),
            None => None,
        };
        let chosen = match from_env {
            Some(n) => n,
            None => match self.min_threads {
                Some(m) => m,
                None => cpus,
            },
        };
        if chosen < 1 {
            1
        } else {
            chosen
        }
    }

    /// Seals the configuration, given the value of its environment variable
    /// (none when it is unset) and the number of CPUs. Fails exactly when the
    /// default maximum, four times the minimum, would overflow.
    pub fn seal_with(&self, env_value: Option<&str>, cpus: usize) -> (r: Option<Config>)
        ensures
            match r {
                Some(c) => self@.sealed(opt_text(env_value), cpus) == Some(c@),
                None => self@.sealed(opt_text(env_value), cpus) is None,
            },
    {
        let min_threads = self.sealed_min_threads(env_value, cpus);
        match min_threads.checked_mul(4) {
            None => None,
            Some(four_times) => {
                let max_threads = match self.max_threads {
                    Some(m) => if m < min_threads {
                        min_threads
                    } else {
                        m
                    },
                    None => four_times,
                };
                Some(Config { min_threads, max_threads })
            },
        }
    }

    /// Seals the configuration, given the value of its environment variable
    /// (none when it is unset), with the number of CPUs of this machine.
    pub fn seal(self, env_value: Option<&str>) -> (r: Option<Config>)
        ensures
            exists|cpus: usize|
                cpus >= 1 && match r {
                    Some(c) => self@.sealed(opt_text(env_value), cpus) == Some(c@),
                    None => self@.sealed(opt_text(env_value), cpus) is None,
                },
    {
        let cpus = available_cpus();
        self.seal_with(env_value, cpus)
    }
}

// ---------------------------------------------------------------------------
// The debug text of a configuration
// ---------------------------------------------------------------------------

/// The text that `{:?}` gives of a string: the string between double
/// quotes, with the characters that need it escaped.
pub uninterp spec fn debug_quoted(text: Seq<char>) -> Seq<char>;

/// Calls std's `Debug` formatting of a `str` (through `format!("{:?}")`):
/// the result is named by `debug_quoted` of the text, which it depends on alone.
#[verifier::external_body]
fn quoted(text: &str) -> (r: String)
    ensures
        r@ == debug_quoted(text@),
{
    format!("{:?}", text)
}

/// The debug text of an optional number.
pub open spec fn optional_number_text(n: Option<usize>) -> Seq<char> {
    match n {
        Some(v) => "Some("@ + decimal(v as nat) + ")"@,
        None => "None"@,
    }
}

/// The debug text of an optional string, given the debug text of the string.
pub open spec fn optional_quoted_text(q: Option<Seq<char>>) -> Seq<char> {
    match q {
        Some(v) => "Some("@ + v + ")"@,
        None => "None"@,
    }
}

/// The debug text of a configuration, given the debug text of its
/// environment variable's name.
pub open spec fn config_debug_text(
    env_var_quoted: Option<Seq<char>>,
    min_threads: Option<usize>,
    max_threads: Option<usize>,
) -> Seq<char> {
    "GlobalExecutorConfig { env_var: "@ + optional_quoted_text(env_var_quoted) + ", min_threads: "@
        + optional_number_text(min_threads) + ", max_threads: "@ + optional_number_text(
        max_threads,
    ) + " }"@
}

fn append_optional_number(s: &mut String, n: Option<usize>)
    ensures
        final(s)@ == old(s)@ + optional_number_text(n),
{
    proof {
        reveal_strlit("Some(");
        reveal_strlit(")");
        reveal_strlit("None");
    }
    match n {
        Some(v) => {
            s.append("Some(");
            let digits = decimal_string(v);
            s.append(digits.as_str());
            s.append(")");
        },
        None => {
            s.append("None");
        },
    }
}

/// Writes the debug text of a configuration, given the debug text of its
/// environment variable's name.
pub fn format_config_debug(
    env_var_quoted: Option<&str>,
    min_threads: Option<usize>,
    max_threads: Option<usize>,
) -> (r: String)
    ensures
        r@ == config_debug_text(opt_text(env_var_quoted), min_threads, max_threads),
{
    proof {
        reveal_strlit("GlobalExecutorConfig { env_var: ");
        reveal_strlit("Some(");
        reveal_strlit(")");
        reveal_strlit("None");
        reveal_strlit(", min_threads: ");
        reveal_strlit(", max_threads: ");
        reveal_strlit(" }");
    }
    let mut s = String::from_str("GlobalExecutorConfig { env_var: ");
    match env_var_quoted {
        Some(q) => {
            s.append("Some(");
            s.append(q);
            s.append(")");
        },
        None => {
            s.append("None");
        },
    }
    s.append(", min_threads: ");
    append_optional_number(&mut s, min_threads);
    s.append(", max_threads: ");
    append_optional_number(&mut s, max_threads);
    s.append(" }");
    assert(s@ =~= config_debug_text(opt_text(env_var_quoted), min_threads, max_threads));
    s
}

/// The pretty (`{:#?}`) debug text of an optional number, as a field value
/// one level deep.
pub open spec fn pretty_optional_number_text(n: Option<usize>) -> Seq<char> {
    match n {
        Some(v) => "Some(\n        "@ + decimal(v as nat) + ",\n    )"@,
        None => "None"@,
    }
}

/// The pretty (`{:#?}`) debug text of an optional string, as a field value
/// one level deep, given the debug text of the string.
pub open spec fn pretty_optional_quoted_text(q: Option<Seq<char>>) -> Seq<char> {
    match q {
        Some(v) => "Some(\n        "@ + v + ",\n    )"@,
        None => "None"@,
    }
}

/// The pretty (`{:#?}`) debug text of a configuration, one field per line,
/// given the debug text of its environment variable's name.
pub open spec fn pretty_config_debug_text(
    env_var_quoted: Option<Seq<char>>,
    min_threads: Option<usize>,
    max_threads: Option<usize>,
) -> Seq<char> {
    "GlobalExecutorConfig {\n    env_var: "@ + pretty_optional_quoted_text(env_var_quoted)
        + ",\n    min_threads: "@ + pretty_optional_number_text(min_threads)
        + ",\n    max_threads: "@ + pretty_optional_number_text(max_threads) + ",\n}"@
}

fn append_pretty_optional_number(s: &mut String, n: Option<usize>)
    ensures
        final(s)@ == old(s)@ + pretty_optional_number_text(n),
{
    proof {
        reveal_strlit("Some(\n        ");
        reveal_strlit(",\n    )");
        reveal_strlit("None");
    }
    match n {
        Some(v) => {
            s.append("Some(\n        ");
            let digits = decimal_string(v);
            s.append(digits.as_str());
            s.append(",\n    )");
        },
        None => {
            s.append("None");
        },
    }
}

/// Writes the pretty (`{:#?}`) debug text of a configuration, given the
/// debug text of its environment variable's name.
pub fn format_config_pretty_debug(
    env_var_quoted: Option<&str>,
    min_threads: Option<usize>,
    max_threads: Option<usize>,
) -> (r: String)
    ensures
        r@ == pretty_config_debug_text(opt_text(env_var_quoted), min_threads, max_threads),
{
    proof {
        reveal_strlit("GlobalExecutorConfig {\n    env_var: ");
        reveal_strlit("Some(\n        ");
        reveal_strlit(",\n    )");
        reveal_strlit("None");
        reveal_strlit(",\n    min_threads: ");
        reveal_strlit(",\n    max_threads: ");
        reveal_strlit(",\n}");
    }
    let mut s = String::from_str("GlobalExecutorConfig {\n    env_var: ");
    match env_var_quoted {
        Some(q) => {
            s.append("Some(\n        ");
            s.append(q);
            s.append(",\n    )");
        },
        None => {
            s.append("None");
        },
    }
    s.append(",\n    min_threads: ");
    append_pretty_optional_number(&mut s, min_threads);
    s.append(",\n    max_threads: ");
    append_pretty_optional_number(&mut s, max_threads);
    s.append(",\n}");
    assert(s@ =~= pretty_config_debug_text(opt_text(env_var_quoted), min_threads, max_threads));
    s
}

impl GlobalExecutorConfig {
    /// The debug text of the configuration: its environment variable, minimum
    /// and maximum, each as set or `None`.
    pub fn debug_text(&self) -> (r: String)
        ensures
            r@ == config_debug_text(
                match self@.env_var {
                    Some(v) => Some(debug_quoted(v)),
                    None => None,
                },
                self@.min_threads,
                self@.max_threads,
            ),
    {
        match self.env_var {
            Some(v) => {
                let q = quoted(v);
                format_config_debug(Some(q.as_str()), self.min_threads, self.max_threads)
            },
            None => format_config_debug(None, self.min_threads, self.max_threads),
        }
    }

    /// The pretty (`{:#?}`) debug text of the configuration: one field per
    /// line, each value as set or `None`.
    pub fn pretty_debug_text(&self) -> (r: String)
        ensures
            r@ == pretty_config_debug_text(
                match self@.env_var {
                    Some(v) => Some(debug_quoted(v)),
                    None => None,
                },
                self@.min_threads,
                self@.max_threads,
            ),
    {
        match self.env_var {
            Some(v) => {
                let q = quoted(v);
                format_config_pretty_debug(Some(q.as_str()), self.min_threads, self.max_threads)
            },
            None => format_config_pretty_debug(None, self.min_threads, self.max_threads),
        }
    }
}

// ---------------------------------------------------------------------------
// The sealed configuration
// ---------------------------------------------------------------------------

/// What a sealed [`Config`] holds.
pub struct ConfigView {
    pub min_threads: usize,
    pub max_threads: usize,
}

impl ConfigView {
    pub open spec fn wf(self) -> bool {
        1 <= self.min_threads <= self.max_threads
    }
}

/// The actual configuration, computed from a [`GlobalExecutorConfig`].
pub struct Config {
    min_threads: usize,
    max_threads: usize,
}

impl View for Config {
    type V = ConfigView;

    closed spec fn view(&self) -> ConfigView {
        ConfigView { min_threads: self.min_threads, max_threads: self.max_threads }
    }
}

impl Config {
    #[verifier::type_invariant]
    pub closed spec fn inv(self) -> bool {
        1 <= self.min_threads <= self.max_threads
    }

    /// What the type invariant says of the view.
    pub proof fn lemma_inv_wf(self)
        requires
            self.inv(),
        ensures
            self@.wf(),
    {
    }

    /// The minimum number of threads.
    pub fn min_threads(&self) -> (r: usize)
        ensures
            r == self@.min_threads,
            self@.wf(),
    {
        proof {
            use_type_invariant(self);
        }
        self.min_threads
    }

    /// The maximum number of threads.
    pub fn max_threads(&self) -> (r: usize)
        ensures
            r == self@.max_threads,
            self@.wf(),
    {
        proof {
            use_type_invariant(self);
        }
        self.max_threads
    }
}

/// Sealing gives a minimum of at least one thread and a maximum no smaller
/// than the minimum.
pub proof fn lemma_sealed_wf(cfg: ExecutorConfigView, env_value: Option<Seq<char>>, cpus: usize)
    requires
        cfg.can_seal(env_value, cpus),
    ensures
        cfg.sealed(env_value, cpus) matches Some(c) && c.wf(),
{
}

/// A thread count in the environment variable takes precedence over the
/// configured minimum and over the number of CPUs.
pub proof fn lemma_env_takes_precedence(
    cfg: ExecutorConfigView,
    value: Seq<char>,
    cpus: usize,
)
    requires
        parsed_thread_count(value) is Some,
    ensures
        cfg.sealed_min_threads(Some(value), cpus) == if parsed_thread_count(value).unwrap() < 1 {
            1
        } else {
            parsed_thread_count(value).unwrap()
        },
{
}

/// The number of CPUs matters only when neither the environment variable nor
/// the configuration gives a thread count.
pub proof fn lemma_cpus_fallback_only(
    cfg: ExecutorConfigView,
    env_value: Option<Seq<char>>,
    cpus1: usize,
    cpus2: usize,
)
    requires
        cfg.env_threads(env_value) is Some || cfg.min_threads is Some,
    ensures
        cfg.sealed(env_value, cpus1) == cfg.sealed(env_value, cpus2),
{
}

/// Sealing takes its bounds from what is given, in this order. The minimum is
/// the count in the environment variable, else the configured minimum, else
/// the number of CPUs, raised to 1. The maximum is the configured maximum
/// raised to the minimum, else four times the minimum. Sealing fails exactly
/// when four times the minimum overflows.
pub proof fn lemma_sealed_bounds(cfg: ExecutorConfigView, env_value: Option<Seq<char>>, cpus: usize)
    ensures
        ({
            let given: usize = match env_value {
                Some(v) => match parsed_thread_count(v) {
                    Some(n) => n,
                    None => match cfg.min_threads {
                        Some(m) => m,
                        None => cpus,
                    },
                },
                None => match cfg.min_threads {
                    Some(m) => m,
                    None => cpus,
                },
            };
            let min: int = if given == 0 { 1 } else { given as int };
            &&& (cfg.sealed(env_value, cpus) is None <==> min * 4 > usize::MAX)
            &&& (cfg.sealed(env_value, cpus) matches Some(c) ==> {
                &&& c.min_threads == min
                &&& (cfg.max_threads matches Some(m) ==> c.max_threads == if m < min {
                    min
                } else {
                    m as int
                })
                &&& (cfg.max_threads is None ==> c.max_threads == 4 * min)
            })
        }),
{
}

/// A configured maximum is kept whatever the environment variable gives,
/// raised only to the sealed minimum: the sealed maximum is the larger of the
/// two, for every environment value and number of CPUs.
pub proof fn lemma_configured_maximum_kept(
    cfg: ExecutorConfigView,
    m: usize,
    env_value: Option<Seq<char>>,
    cpus: usize,
)
    requires
        cfg.max_threads == Some(m),
    ensures
        cfg.sealed_max_threads(env_value, cpus) == if m < cfg.sealed_min_threads(env_value, cpus) {
            cfg.sealed_min_threads(env_value, cpus)
        } else {
            m
        },
        cfg.sealed(env_value, cpus) matches Some(c) ==> c.max_threads >= m && (c.max_threads == m
            || c.max_threads == c.min_threads),
{
}

/// Without a configured maximum, the sealed maximum is four times the
/// sealed minimum, for every environment value and number of CPUs.
pub proof fn lemma_default_maximum(cfg: ExecutorConfigView, env_value: Option<Seq<char>>, cpus: usize)
    requires
        cfg.max_threads is None,
        cfg.can_seal(env_value, cpus),
    ensures
        cfg.sealed_max_threads(env_value, cpus) == 4 * cfg.sealed_min_threads(env_value, cpus),
        cfg.sealed(env_value, cpus) matches Some(c) && c.max_threads == 4 * c.min_threads,
{
}

/// The decimal text of a number is all digits and denotes that number.
pub proof fn lemma_decimal_digits(n: nat)
    ensures
        decimal(n).len() > 0,
        all_digits(decimal(n)),
        digits_value(decimal(n)) == n,
    decreases n,
{
    let d = decimal(n);
    if n < 10 {
        assert(d.drop_last() =~= Seq::<char>::empty());
        assert(digits_value(d.drop_last()) == 0);
        assert(digit_value(d.last()) == n);
    } else {
        lemma_decimal_digits(n / 10);
        assert(d.drop_last() =~= decimal(n / 10));
        assert(digit_value(d.last()) == n % 10);
        assert(digits_value(d) == digits_value(decimal(n / 10)) * 10 + n % 10);
        assert(n == (n / 10) * 10 + n % 10);
        assert forall|i: int| 0 <= i < d.len() implies is_digit(#[trigger] d[i]) by {
            if i < d.len() - 1 {
                assert(d[i] == decimal(n / 10)[i]);
            }
        }
    }
}

/// Every count written in decimal, with or without a leading `+`, reads
/// back as that count.
pub proof fn lemma_parse_decimal_round_trip(n: usize)
    ensures
        parsed_thread_count(decimal(n as nat)) == Some(n),
        parsed_thread_count(seq!['+'] + decimal(n as nat)) == Some(n),
{
    let d = decimal(n as nat);
    lemma_decimal_digits(n as nat);
    assert(is_digit(d[0]));
    assert(unsigned_digits(d) == d);
    let p = seq!['+'] + d;
    assert(p.drop_first() =~= d);
    assert(unsigned_digits(p) == d);
}

} // verus!
