//! Parsing and matching of media-player endpoint names.
//!
//! A player announces itself on the bus under a name such as
//! `org.mpris.MediaPlayer2.spotify`: the fixed namespace prefix followed by
//! the player's own label as the fourth dot-separated segment. This module
//! gives that convention a mathematical model — splitting a character
//! sequence on dots — and a verified parser and set of matching predicates
//! over it.

use vstd::prelude::*;

use crate::errors::MprisError;
use crate::errors::MprisResult;
use crate::text::find_char_from;
use crate::text::str_eq;
use crate::text::str_starts_with;

verus! {

/// The namespace prefix every media-player bus name must carry.
pub open spec fn mpris_namespace() -> Seq<char> {
    "org.mpris.MediaPlayer2"@
}

/// The namespace prefix as a string slice.
pub fn mpris_namespace_str() -> (r: &'static str)
    ensures
        r@ == mpris_namespace(),
{
    "org.mpris.MediaPlayer2"
}

/// Index of the first dot of `s`, or `s.len()` when `s` has none.
pub open spec fn first_dot(s: Seq<char>) -> int
    decreases s.len(),
{
    if s.len() == 0 {
        0
    } else if s[0] == '.' {
        0
    } else {
        1 + first_dot(s.drop_first())
    }
}

/// `first_dot` points at the first dot: it lies in `[0, s.len()]`, the
/// character there is a dot when one exists, and nothing before it is one.
pub proof fn lemma_first_dot(s: Seq<char>)
    ensures
        0 <= first_dot(s) <= s.len(),
        first_dot(s) < s.len() ==> s[first_dot(s)] == '.',
        forall|j: int| 0 <= j < first_dot(s) ==> s[j] != '.',
    decreases s.len(),
{
    if s.len() == 0 {
    } else if s[0] == '.' {
    } else {
        lemma_first_dot(s.drop_first());
        assert forall|j: int| 0 <= j < first_dot(s) implies s[j] != '.' by {
            if j > 0 {
                assert(s.drop_first()[j - 1] == s[j]);
            }
        }
        if first_dot(s) < s.len() {
            assert(s.drop_first()[first_dot(s) - 1] == s[first_dot(s)]);
        }
    }
}

/// Any index with the three properties of `lemma_first_dot` is `first_dot`.
pub proof fn lemma_first_dot_is(s: Seq<char>, d: int)
    requires
        0 <= d <= s.len(),
        d < s.len() ==> s[d] == '.',
        forall|j: int| 0 <= j < d ==> s[j] != '.',
    ensures
        first_dot(s) == d,
    decreases s.len(),
{
    if s.len() == 0 {
    } else if s[0] == '.' {
        assert(d == 0);
    } else {
        assert(d >= 1);
        assert forall|j: int| 0 <= j < d - 1 implies s.drop_first()[j] != '.' by {
            assert(s.drop_first()[j] == s[j + 1]);
        }
        if d - 1 < s.drop_first().len() {
            assert(s.drop_first()[d - 1] == s[d]);
        }
        lemma_first_dot_is(s.drop_first(), d - 1);
    }
}

/// The dot-separated segments of `s`, in order. A sequence without dots is
/// one segment; every dot opens a further one, so empty segments are kept.
pub open spec fn split_on_dots(s: Seq<char>) -> Seq<Seq<char>>
    decreases s.len() via split_on_dots_decreases
{
    let d = first_dot(s);
    if d == s.len() {
        seq![s]
    } else {
        seq![s.subrange(0, d)] + split_on_dots(s.subrange(d + 1, s.len() as int))
    }
}

#[via_fn]
proof fn split_on_dots_decreases(s: Seq<char>) {
    lemma_first_dot(s);
}

/// A bus name denotes a player when it carries the namespace prefix and has
/// at least four dot-separated segments.
pub open spec fn spec_valid_bus_name(s: Seq<char>) -> bool {
    split_on_dots(s).len() >= 4 && mpris_namespace().is_prefix_of(s)
}

/// The short name a valid bus name carries: its fourth segment.
pub open spec fn spec_short_of(s: Seq<char>) -> Seq<char> {
    split_on_dots(s)[3]
}

/// Relates the result of scanning for the first four dots of `s` to the
/// split model: the fourth segment exists exactly when three dots were
/// found, and then it spans from past the third dot to the fourth one.
proof fn lemma_split_from_dots(s: Seq<char>, d1: int, d2: int, d3: int, d4: int)
    requires
        0 <= d1 <= s.len(),
        d1 < s.len() ==> s[d1] == '.',
        forall|j: int| 0 <= j < d1 ==> s[j] != '.',
        d1 < s.len() ==> d1 + 1 <= d2 <= s.len(),
        d1 < s.len() && d2 < s.len() ==> s[d2] == '.',
        d1 < s.len() ==> (forall|j: int| d1 + 1 <= j < d2 ==> s[j] != '.'),
        d1 < s.len() && d2 < s.len() ==> d2 + 1 <= d3 <= s.len(),
        d1 < s.len() && d2 < s.len() && d3 < s.len() ==> s[d3] == '.',
        d1 < s.len() && d2 < s.len() ==> (forall|j: int| d2 + 1 <= j < d3 ==> s[j] != '.'),
        d1 < s.len() && d2 < s.len() && d3 < s.len() ==> d3 + 1 <= d4 <= s.len(),
        d1 < s.len() && d2 < s.len() && d3 < s.len() && d4 < s.len() ==> s[d4] == '.',
        d1 < s.len() && d2 < s.len() && d3 < s.len() ==> (forall|j: int|
            d3 + 1 <= j < d4 ==> s[j] != '.'),
    ensures
        (split_on_dots(s).len() >= 4) <==> (d1 < s.len() && d2 < s.len() && d3 < s.len()),
        d1 < s.len() && d2 < s.len() && d3 < s.len() ==> split_on_dots(s)[3] == s.subrange(
            d3 + 1,
            d4,
        ),
{
    lemma_first_dot_is(s, d1);
    if d1 == s.len() {
        return;
    }
    let t1 = s.subrange(d1 + 1, s.len() as int);
    assert(split_on_dots(s) == seq![s.subrange(0, d1)] + split_on_dots(t1));
    assert forall|j: int| 0 <= j < d2 - d1 - 1 implies t1[j] != '.' by {
        assert(t1[j] == s[d1 + 1 + j]);
    }
    if d2 - d1 - 1 < t1.len() {
        assert(t1[d2 - d1 - 1] == s[d2]);
    }
    lemma_first_dot_is(t1, d2 - d1 - 1);
    if d2 == s.len() {
        assert(split_on_dots(t1).len() == 1);
        assert(split_on_dots(s).len() == 2);
        return;
    }
    let t2 = t1.subrange(d2 - d1, t1.len() as int);
    assert(split_on_dots(t1) == seq![t1.subrange(0, d2 - d1 - 1)] + split_on_dots(t2));
    assert(t2 =~= s.subrange(d2 + 1, s.len() as int));
    assert forall|j: int| 0 <= j < d3 - d2 - 1 implies t2[j] != '.' by {
        assert(t2[j] == s[d2 + 1 + j]);
    }
    if d3 - d2 - 1 < t2.len() {
        assert(t2[d3 - d2 - 1] == s[d3]);
    }
    lemma_first_dot_is(t2, d3 - d2 - 1);
    if d3 == s.len() {
        assert(split_on_dots(t2).len() == 1);
        assert(split_on_dots(s).len() == 3);
        return;
    }
    let t3 = t2.subrange(d3 - d2, t2.len() as int);
    assert(split_on_dots(t2) == seq![t2.subrange(0, d3 - d2 - 1)] + split_on_dots(t3));
    assert(t3 =~= s.subrange(d3 + 1, s.len() as int));
    assert forall|j: int| 0 <= j < d4 - d3 - 1 implies t3[j] != '.' by {
        assert(t3[j] == s[d3 + 1 + j]);
    }
    if d4 - d3 - 1 < t3.len() {
        assert(t3[d4 - d3 - 1] == s[d4]);
    }
    lemma_first_dot_is(t3, d4 - d3 - 1);
    assert(split_on_dots(t3).len() >= 1);
    assert(split_on_dots(s).len() == 3 + split_on_dots(t3).len());
    if d4 - d3 - 1 == t3.len() {
        assert(split_on_dots(t3)[0] == t3);
        assert(t3 =~= s.subrange(d3 + 1, d4));
    } else {
        assert(split_on_dots(t3)[0] == t3.subrange(0, d4 - d3 - 1));
        assert(t3.subrange(0, d4 - d3 - 1) =~= s.subrange(d3 + 1, d4));
    }
    assert(split_on_dots(s)[3] == split_on_dots(t1)[2]);
    assert(split_on_dots(t1)[2] == split_on_dots(t2)[1]);
    assert(split_on_dots(t2)[1] == split_on_dots(t3)[0]);
}

/// True when the candidate is itself namespace-prefixed and is a prefix of
/// the given bus name.
pub open spec fn name_matches_prefix(bus: Seq<char>, candidate: Seq<char>) -> bool {
    mpris_namespace().is_prefix_of(candidate) && candidate.is_prefix_of(bus)
}

/// True when the candidate equals the short name or prefix-matches the bus
/// name.
pub open spec fn name_matches_either(short: Seq<char>, bus: Seq<char>, candidate: Seq<char>) -> bool {
    short == candidate || name_matches_prefix(bus, candidate)
}

/// The identity of one media-player endpoint: its full bus name and the
/// short label that names the player itself.
#[derive(Debug)]
pub struct PlayerIdentity {
    /// The short name of the player.
    short: String,
    /// The full bus name of the player.
    bus: String,
}

impl PlayerIdentity {
    /// The full bus name, as a character sequence.
    pub closed spec fn spec_bus(&self) -> Seq<char> {
        self.bus@
    }

    /// The short name, as a character sequence.
    pub closed spec fn spec_short(&self) -> Seq<char> {
        self.short@
    }

    #[verifier::type_invariant]
    spec fn wf(self) -> bool {
        spec_valid_bus_name(self.bus@) && self.short@ == spec_short_of(self.bus@)
    }

    /// Parses a bus name into a player identity.
    ///
    /// Succeeds exactly on namespace-prefixed names with at least four
    /// dot-separated segments; the short name is then the fourth segment.
    /// Every other input is rejected with `InvalidBusName`.
    pub fn new(bus: String) -> (r: MprisResult<PlayerIdentity>)
        ensures
            spec_valid_bus_name(bus@) ==> (r matches Ok(id) && id.spec_bus() == bus@
                && id.spec_short() == spec_short_of(bus@)),
            !spec_valid_bus_name(bus@) ==> r matches Err(MprisError::InvalidBusName),
    {
        let s = bus.as_str();
        let n = s.unicode_len();
        if !str_starts_with(s, mpris_namespace_str()) {
            return Err(MprisError::InvalidBusName);
        }
        let d1 = find_char_from(s, 0, '.');
        if d1 == n {
            proof {
                lemma_split_from_dots(bus@, d1 as int, 0, 0, 0);
            }
            return Err(MprisError::InvalidBusName);
        }
        let d2 = find_char_from(s, d1 + 1, '.');
        if d2 == n {
            proof {
                lemma_split_from_dots(bus@, d1 as int, d2 as int, 0, 0);
            }
            return Err(MprisError::InvalidBusName);
        }
        let d3 = find_char_from(s, d2 + 1, '.');
        if d3 == n {
            proof {
                lemma_split_from_dots(bus@, d1 as int, d2 as int, d3 as int, 0);
            }
            return Err(MprisError::InvalidBusName);
        }
        let d4 = find_char_from(s, d3 + 1, '.');
        proof {
            lemma_split_from_dots(bus@, d1 as int, d2 as int, d3 as int, d4 as int);
        }
        let short = s.substring_char(d3 + 1, d4).to_owned();
        Ok(PlayerIdentity { short, bus })
    }

    /// True when the short name equals the given string.
    pub fn matches_short(&self, other: &str) -> (r: bool)
        ensures
            r == (self.spec_short() == other@),
    {
        str_eq(self.short.as_str(), other)
    }

    /// True when the candidate is itself namespace-prefixed and the bus name
    /// starts with it.
    pub fn matches_bus_prefix(&self, other: &str) -> (r: bool)
        ensures
            r == name_matches_prefix(self.spec_bus(), other@),
    {
        str_starts_with(other, mpris_namespace_str()) && str_starts_with(self.bus.as_str(), other)
    }

    /// True when either the short name or the bus-prefix test matches.
    pub fn matches_either(&self, other: &str) -> (r: bool)
        ensures
            r == name_matches_either(self.spec_short(), self.spec_bus(), other@),
    {
        self.matches_short(other) || self.matches_bus_prefix(other)
    }

    /// True only when both the short name and the bus-prefix test match.
    pub fn matches_both(&self, other: &str) -> (r: bool)
        ensures
            r == (self.spec_short() == other@ && name_matches_prefix(self.spec_bus(), other@)),
    {
        self.matches_short(other) && self.matches_bus_prefix(other)
    }

    /// Gets the short name.
    pub fn short(&self) -> (r: &str)
        ensures
            r@ == self.spec_short(),
    {
        self.short.as_str()
    }

    /// Gets the full bus name.
    pub fn bus(&self) -> (r: &str)
        ensures
            r@ == self.spec_bus(),
    {
        self.bus.as_str()
    }
}

impl Clone for PlayerIdentity {
    /// The clone carries the same short and bus name.
    fn clone(&self) -> (r: Self)
        ensures
            r == *self,
    {
        proof {
            use_type_invariant(self);
        }
        PlayerIdentity { short: self.short.clone(), bus: self.bus.clone() }
    }
}

impl PartialEq for PlayerIdentity {
    fn eq(&self, other: &Self) -> (r: bool) {
        str_eq(self.short.as_str(), other.short.as_str()) && str_eq(
            self.bus.as_str(),
            other.bus.as_str(),
        )
    }
}

impl vstd::std_specs::cmp::PartialEqSpecImpl for PlayerIdentity {
    open spec fn obeys_eq_spec() -> bool {
        true
    }

    open spec fn eq_spec(&self, other: &Self) -> bool {
        self.spec_short() == other.spec_short() && self.spec_bus() == other.spec_bus()
    }
}

/// A candidate that is not itself namespace-prefixed never prefix-matches an
/// identity, even when the full bus name textually starts with it.
pub proof fn lemma_prefix_match_needs_namespace(id: PlayerIdentity, candidate: Seq<char>)
    requires
        !mpris_namespace().is_prefix_of(candidate),
    ensures
        !name_matches_prefix(id.spec_bus(), candidate),
{
}

} // verus!
