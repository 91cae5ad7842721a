//! The builder and the rule by which an identifier is put together.

use crate::alphabet::{
    all_alphanumeric, is_alphanumeric, is_alphanumeric_byte, is_digit, is_lower,
};
use crate::base36::{base36, lemma_base36_alphabet, to_base36};
use crate::counter::counter;
use crate::decimal::{decimal, lemma_decimal_digits, lemma_decimal_len, to_decimal};
use crate::error::{PuidError, PuidResult};
use crate::random::rnd_string;
use std::sync::atomic::AtomicU8;
use vstd::prelude::*;

verus! {

/// The number of random characters of a builder that was not told another.
pub const DEFAULT_ENTROPY: u8 = 12;

/// The least number of characters of a prefix.
pub const PREFIX_MIN_LEN: usize = 1;

/// The greatest number of characters of a prefix.
pub const PREFIX_MAX_LEN: usize = 8;

/// A prefix is acceptable when it has one to eight characters, each an
/// ASCII letter or digit.
pub open spec fn valid_prefix(p: Seq<char>) -> bool {
    PREFIX_MIN_LEN <= p.len() <= PREFIX_MAX_LEN && all_alphanumeric(p)
}

/// Tells whether `prefix` is acceptable.
pub fn validate(prefix: &str) -> (ok: bool)
    ensures
        ok == valid_prefix(prefix@),
{
    if !prefix.is_ascii() {
        return false;
    }
    let bytes = prefix.as_bytes();
    let n = bytes.len();
    proof {
        vstd::string::is_ascii_spec_bytes(prefix);
    }
    if n < PREFIX_MIN_LEN || n > PREFIX_MAX_LEN {
        return false;
    }
    let mut i: usize = 0;
    while i < n
        invariant
            i <= n,
            n == prefix@.len(),
            n == bytes@.len(),
            prefix.is_ascii(),
            forall|k: int| 0 <= k < n ==> bytes@[k] == #[trigger] prefix@[k] as u8,
            forall|k: int| 0 <= k < i ==> is_alphanumeric(#[trigger] prefix@[k]),
        decreases n - i,
    {
        if !is_alphanumeric_byte(bytes[i]) {
            assert(!is_alphanumeric(prefix@[i as int]));
            return false;
        }
        assert(is_alphanumeric(prefix@[i as int]));
        i = i + 1;
    }
    true
}

/// What a builder holds: the prefix, empty while none was set, and the
/// number of random characters that close the identifier.
pub struct Config {
    pub prefix: Seq<char>,
    pub entropy: u8,
}

impl Config {
    /// The configuration of a fresh builder: no prefix, twelve random
    /// characters.
    pub open spec fn initial() -> Config {
        Config { prefix: Seq::empty(), entropy: DEFAULT_ENTROPY }
    }

    /// The outcome of setting the prefix `p`: the configuration with `p` in
    /// place where `p` is acceptable, the error otherwise.
    pub open spec fn with_prefix(self, p: Seq<char>) -> Result<Config, PuidError> {
        if valid_prefix(p) {
            Ok(Config { prefix: p, entropy: self.entropy })
        } else {
            Err(PuidError::InvalidPrefix)
        }
    }

    /// The configuration with `n` random characters.
    pub open spec fn with_entropy(self, n: u8) -> Config {
        Config { prefix: self.prefix, entropy: n }
    }
}

/// The part of an identifier that the configuration and the readings fix:
/// the prefix, an underscore, the clock reading in base 36, the counter
/// reading in decimal and the process identifier in base 36.
pub open spec fn stem(prefix: Seq<char>, millis: u128, count: u8, pid: u32) -> Seq<char> {
    prefix + seq!['_'] + base36(millis as nat) + decimal(count as nat) + base36(pid as nat)
}

/// The identifier with the given random tail.
pub open spec fn identifier(
    prefix: Seq<char>,
    millis: u128,
    count: u8,
    pid: u32,
    tail: Seq<char>,
) -> Seq<char> {
    stem(prefix, millis, count, pid) + tail
}

/// `id` is an identifier for `cfg` under the given readings: the stem,
/// followed by exactly `cfg.entropy` ASCII letters and digits.
pub open spec fn is_identifier(
    id: Seq<char>,
    cfg: Config,
    millis: u128,
    count: u8,
    pid: u32,
) -> bool {
    let head = stem(cfg.prefix, millis, count, pid);
    &&& id.len() == head.len() + cfg.entropy
    &&& id.subrange(0, head.len() as int) == head
    &&& all_alphanumeric(id.subrange(head.len() as int, id.len() as int))
}

/// `id` is an identifier for `cfg` under the clock reading `millis`, the
/// process identifier `pid` and some reading of the counter: what a build
/// may return, whatever the counter held.
pub open spec fn is_built(id: Seq<char>, cfg: Config, millis: u128, pid: u32) -> bool {
    exists|count: u8| is_identifier(id, cfg, millis, count, pid)
}

/// A stem closed by `cfg.entropy` ASCII letters and digits is an identifier
/// for `cfg`.
pub proof fn lemma_closed_stem_is_identifier(
    cfg: Config,
    millis: u128,
    count: u8,
    pid: u32,
    tail: Seq<char>,
)
    requires
        tail.len() == cfg.entropy,
        all_alphanumeric(tail),
    ensures
        is_identifier(identifier(cfg.prefix, millis, count, pid, tail), cfg, millis, count, pid),
{
    let head = stem(cfg.prefix, millis, count, pid);
    let id = head + tail;
    assert(id.subrange(0, head.len() as int) =~= head);
    assert(id.subrange(head.len() as int, id.len() as int) =~= tail);
}

/// Puts an identifier together from its parts.
pub fn assemble(prefix: &str, millis: u128, count: u8, pid: u32, tail: &str) -> (id: String)
    ensures
        id@ == identifier(prefix@, millis, count, pid, tail@),
{
    let mut id = String::new();
    id.append(prefix);
    id.push('_');
    id.append(to_base36(millis).as_str());
    id.append(to_decimal(count).as_str());
    id.append(to_base36(pid as u128).as_str());
    id.append(tail);
    proof {
        assert(id@ =~= identifier(prefix@, millis, count, pid, tail@));
    }
    id
}

/// The entry point of the library.
pub struct Puid;

impl Puid {
    /// A fresh builder.
    pub fn builder() -> (b: PuidBuilder<'static>)
        ensures
            b@ == Config::initial(),
    {
        PuidBuilder::new()
    }
}

/// Collects the prefix and the number of random characters, and builds
/// identifiers from them. A builder never holds a prefix that is neither
/// empty nor acceptable.
#[derive(Debug)]
pub struct PuidBuilder<'a> {
    entropy: u8,
    prefix: &'a str,
}

impl<'a> View for PuidBuilder<'a> {
    type V = Config;

    closed spec fn view(&self) -> Config {
        Config { prefix: self.prefix@, entropy: self.entropy }
    }
}

impl<'a> Default for PuidBuilder<'a> {
    /// A builder with no prefix and no random characters.
    fn default() -> (b: Self)
        ensures
            b@ == (Config { prefix: Seq::empty(), entropy: 0 }),
    {
        proof {
            reveal_strlit("");
        }
        assert(""@ =~= Seq::<char>::empty());
        PuidBuilder { entropy: 0, prefix: "" }
    }
}

impl<'a> PuidBuilder<'a> {
    #[verifier::type_invariant]
    spec fn prefix_unset_or_valid(self) -> bool {
        self.prefix@.len() == 0 || valid_prefix(self.prefix@)
    }

    /// A builder with no prefix and the default number of random
    /// characters.
    pub fn new() -> (b: Self)
        ensures
            b@ == Config::initial(),
    {
        proof {
            reveal_strlit("");
        }
        assert(""@ =~= Seq::<char>::empty());
        PuidBuilder { entropy: DEFAULT_ENTROPY, prefix: "" }
    }

    /// Sets the prefix where it is acceptable, and reports
    /// `InvalidPrefix` where it is not.
    pub fn prefix(self, prefix: &'a str) -> (res: PuidResult<Self>)
        ensures
            match res {
                Ok(b) => self@.with_prefix(prefix@) == Ok::<Config, PuidError>(b@),
                Err(e) => self@.with_prefix(prefix@) == Err::<Config, PuidError>(e),
            },
    {
        if validate(prefix) {
            Ok(PuidBuilder { entropy: self.entropy, prefix })
        } else {
            Err(PuidError::InvalidPrefix)
        }
    }

    /// Sets the number of random characters. Every number is accepted.
    pub fn entropy(self, entropy: u8) -> (b: Self)
        ensures
            b@ == self@.with_entropy(entropy),
    {
        proof {
            use_type_invariant(&self);
        }
        PuidBuilder { entropy, prefix: self.prefix }
    }

    /// Builds an identifier from the clock reading `millis` (milliseconds
    /// since the Unix epoch), the next reading of the counter in `cell`, the
    /// process identifier `pid` and freshly drawn random characters.
    ///
    /// Fails with `InvalidPrefix` exactly when no prefix was set; the
    /// counter is then left alone. Otherwise it is advanced once, and the
    /// identifier holds the reading that this call took.
    pub fn build(self, millis: u128, cell: &AtomicU8, pid: u32) -> (res: PuidResult<String>)
        ensures
            match res {
                Ok(id) => valid_prefix(self@.prefix) && is_built(id@, self@, millis, pid),
                Err(e) => self@.prefix.len() == 0 && e == PuidError::InvalidPrefix,
            },
    {
        proof {
            use_type_invariant(&self);
        }
        if self.prefix.is_empty() {
            return Err(PuidError::InvalidPrefix);
        }
        let count = counter(cell);
        let tail = rnd_string(self.entropy);
        let id = assemble(self.prefix, millis, count, pid, tail.as_str());
        proof {
            lemma_closed_stem_is_identifier(self@, millis, count, pid, tail@);
            assert(is_identifier(id@, self@, millis, count, pid));
        }
        Ok(id)
    }
}

/// Builds an identifier from `pref` and `elements` random characters in one
/// call, with the readings that `PuidBuilder::build` takes. The prefix must
/// be acceptable.
pub fn puid(pref: &str, elements: u8, millis: u128, cell: &AtomicU8, pid: u32) -> (id: String)
    requires
        valid_prefix(pref@),
    ensures
        is_built(id@, (Config { prefix: pref@, entropy: elements }), millis, pid),
{
    let count = counter(cell);
    let tail = rnd_string(elements);
    let id = assemble(pref, millis, count, pid, tail.as_str());
    proof {
        lemma_closed_stem_is_identifier(
            Config { prefix: pref@, entropy: elements },
            millis,
            count,
            pid,
            tail@,
        );
        assert(is_identifier(
            id@,
            Config { prefix: pref@, entropy: elements },
            millis,
            count,
            pid,
        ));
    }
    id
}

/// Every prefix of one to eight ASCII letters and digits is accepted,
/// whatever the builder held before, and an identifier built with it starts
/// with that prefix and an underscore, whatever the number of random
/// characters and the readings.
pub proof fn lemma_valid_prefix_leads(
    cfg: Config,
    p: Seq<char>,
    entropy: u8,
    millis: u128,
    pid: u32,
    id: Seq<char>,
)
    requires
        1 <= p.len() <= 8,
        all_alphanumeric(p),
        is_built(id, (Config { prefix: p, entropy }), millis, pid),
    ensures
        cfg.with_prefix(p) == Ok::<Config, PuidError>(Config { prefix: p, entropy: cfg.entropy }),
        id.len() > p.len(),
        id.subrange(0, p.len() as int + 1) == p.push('_'),
{
    let cfg_p = Config { prefix: p, entropy };
    let count = choose|count: u8| is_identifier(id, cfg_p, millis, count, pid);
    let head = stem(p, millis, count, pid);
    let n = p.len() as int + 1;
    assert(head.subrange(0, n) =~= p.push('_'));
    assert(id.subrange(0, n) =~= id.subrange(0, head.len() as int).subrange(0, n));
}

/// A prefix that is empty, longer than eight characters, or holds a
/// character that is no ASCII letter or digit is rejected with
/// `InvalidPrefix`, whatever the builder held before.
pub proof fn lemma_invalid_prefix_rejected(cfg: Config, p: Seq<char>)
    requires
        p.len() == 0 || p.len() > 8 || exists|i: int| 0 <= i < p.len() && !is_alphanumeric(p[i]),
    ensures
        cfg.with_prefix(p) == Err::<Config, PuidError>(PuidError::InvalidPrefix),
{
}

/// An identifier built for `cfg` ends in exactly `cfg.entropy` random
/// characters, each an ASCII letter or digit.
pub proof fn lemma_random_tail(id: Seq<char>, cfg: Config, millis: u128, pid: u32)
    requires
        is_built(id, cfg, millis, pid),
    ensures
        id.len() >= cfg.entropy,
        all_alphanumeric(id.subrange(id.len() - cfg.entropy, id.len() as int)),
{
}

/// An identifier is its stem followed by its last `cfg.entropy`
/// characters, and by nothing else.
pub proof fn lemma_identifier_parts(
    id: Seq<char>,
    cfg: Config,
    millis: u128,
    count: u8,
    pid: u32,
)
    requires
        is_identifier(id, cfg, millis, count, pid),
    ensures
        id.len() >= cfg.entropy,
        id == identifier(
            cfg.prefix,
            millis,
            count,
            pid,
            id.subrange(id.len() - cfg.entropy, id.len() as int),
        ),
{
    let head = stem(cfg.prefix, millis, count, pid);
    assert(id =~= id.subrange(0, head.len() as int) + id.subrange(
        head.len() as int,
        id.len() as int,
    ));
}

/// Behind the prefix and the underscore, a stem holds digits and lower-case
/// letters only: the clock reading, then the one to three decimal digits of
/// the counter reading, then the process identifier.
pub proof fn lemma_stem_shape(prefix: Seq<char>, millis: u128, count: u8, pid: u32)
    ensures
        stem(prefix, millis, count, pid).len() == prefix.len() + 1 + base36(millis as nat).len()
            + decimal(count as nat).len() + base36(pid as nat).len(),
        1 <= decimal(count as nat).len() <= 3,
        stem(prefix, millis, count, pid).subrange(0, prefix.len() as int) == prefix,
        stem(prefix, millis, count, pid)[prefix.len() as int] == '_',
        forall|i: int|
            prefix.len() < i < stem(prefix, millis, count, pid).len() ==> {
                let c = #[trigger] stem(prefix, millis, count, pid)[i];
                is_digit(c) || is_lower(c)
            },
{
    let s = stem(prefix, millis, count, pid);
    let t = base36(millis as nat);
    let c = decimal(count as nat);
    let q = base36(pid as nat);
    lemma_base36_alphabet(millis as nat);
    lemma_base36_alphabet(pid as nat);
    lemma_decimal_digits(count as nat);
    lemma_decimal_len(count as nat);
    assert(s.subrange(0, prefix.len() as int) =~= prefix);
    assert forall|i: int| prefix.len() < i < s.len() implies {
        let ch = #[trigger] s[i];
        is_digit(ch) || is_lower(ch)
    } by {
        let k = i - prefix.len() - 1;
        if k < t.len() {
            assert(s[i] == t[k]);
        } else if k < t.len() + c.len() {
            assert(s[i] == c[k - t.len()]);
        } else {
            assert(s[i] == q[k - t.len() - c.len()]);
        }
    }
}

} // verus!
