//! The cache-control aggregate of a response and its merge operation.

use vstd::prelude::*;

verus! {

/// The smaller of two ages, where `0` stands for "unset" and gives way to
/// the other age.
pub open spec fn pick_nonzero_min(x: nat, y: nat) -> nat {
    if x == 0 {
        y
    } else if y == 0 {
        x
    } else if x <= y {
        x
    } else {
        y
    }
}

/// The character that stands for the decimal digit `d`.
pub open spec fn digit_char(d: nat) -> char
    recommends
        d < 10,
{
    if d == 0 {
        '0'
    } else if d == 1 {
        '1'
    } else if d == 2 {
        '2'
    } else if d == 3 {
        '3'
    } else if d == 4 {
        '4'
    } else if d == 5 {
        '5'
    } else if d == 6 {
        '6'
    } else if d == 7 {
        '7'
    } else if d == 8 {
        '8'
    } else {
        '9'
    }
}

/// The decimal numeral of `n`, most significant digit first and without
/// leading zeros.
pub open spec fn decimal_digits(n: nat) -> Seq<char>
    decreases n,
{
    if n < 10 {
        seq![digit_char(n)]
    } else {
        decimal_digits(n / 10).push(digit_char(n % 10))
    }
}

/// The text of a digit.
fn digit_text(d: usize) -> (text: &'static str)
    requires
        d < 10,
    ensures
        text@ == seq![digit_char(d as nat)],
{
    proof {
        reveal_strlit("0");
        reveal_strlit("1");
        reveal_strlit("2");
        reveal_strlit("3");
        reveal_strlit("4");
        reveal_strlit("5");
        reveal_strlit("6");
        reveal_strlit("7");
        reveal_strlit("8");
        reveal_strlit("9");
    }
    if d == 0 {
        "0"
    } else if d == 1 {
        "1"
    } else if d == 2 {
        "2"
    } else if d == 3 {
        "3"
    } else if d == 4 {
        "4"
    } else if d == 5 {
        "5"
    } else if d == 6 {
        "6"
    } else if d == 7 {
        "7"
    } else if d == 8 {
        "8"
    } else {
        "9"
    }
}

/// Appends the decimal numeral of `n` to `out`.
fn push_decimal(out: &mut String, n: usize)
    ensures
        final(out)@ == old(out)@ + decimal_digits(n as nat),
    decreases n,
{
    if n >= 10 {
        push_decimal(out, n / 10);
    }
    out.append(digit_text(n % 10));
}

/// Cache control values.
///
/// `max_age == 0` means that no age was set, not an age of zero seconds.
#[derive(Clone, Copy, PartialEq, Eq, Debug, Structural)]
pub struct CacheControl {
    /// Scope is public, default is true.
    pub public: bool,
    /// Cache max age, default is 0.
    pub max_age: usize,
}

impl CacheControl {
    /// The identity of `merge`: public, with no age set.
    pub open spec fn identity() -> CacheControl {
        CacheControl { public: true, max_age: 0 }
    }

    /// The directive that covers both `self` and `other`: public only if
    /// both are, and with the smaller of the ages that were set.
    pub open spec fn merged(self, other: CacheControl) -> CacheControl {
        CacheControl {
            public: self.public && other.public,
            max_age: pick_nonzero_min(self.max_age as nat, other.max_age as nat) as usize,
        }
    }

    /// The text of the `Cache-Control` header for a directive with an age:
    /// `max-age=` and the age in decimal, followed by `, private` unless the
    /// scope is public.
    pub open spec fn header_text(self) -> Seq<char> {
        "max-age="@ + decimal_digits(self.max_age as nat) + if self.public {
            Seq::<char>::empty()
        } else {
            ", private"@
        }
    }

    /// Get 'Cache-Control' header value: none where no age is set.
    #[must_use]
    pub fn value(&self) -> (header: Option<String>)
        ensures
            self.max_age == 0 ==> header is None,
            self.max_age > 0 ==> (header matches Some(text) && text@ == self.header_text()),
    {
        if self.max_age > 0 {
            let mut text = String::from_str("max-age=");
            push_decimal(&mut text, self.max_age);
            if !self.public {
                text.append(", private");
            }
            Some(text)
        } else {
            None
        }
    }

    /// Combines two directives into the one that covers both.
    #[must_use]
    pub fn merge(self, other: &CacheControl) -> (merged: CacheControl)
        ensures
            merged == self.merged(*other),
    {
        CacheControl {
            public: self.public && other.public,
            max_age: if self.max_age == 0 {
                other.max_age
            } else if other.max_age == 0 {
                self.max_age
            } else if self.max_age <= other.max_age {
                self.max_age
            } else {
                other.max_age
            },
        }
    }
}

impl Default for CacheControl {
    fn default() -> (control: CacheControl)
        ensures
            control == CacheControl::identity(),
    {
        CacheControl { public: true, max_age: 0 }
    }
}

/// Merging does not depend on the order of its two arguments.
pub proof fn merge_commutative(a: CacheControl, b: CacheControl)
    ensures
        a.merged(b) == b.merged(a),
{
}

/// Merging three directives gives the same result however they are grouped.
pub proof fn merge_associative(a: CacheControl, b: CacheControl, c: CacheControl)
    ensures
        a.merged(b).merged(c) == a.merged(b.merged(c)),
{
}

/// Merging with the identity, on either side, changes nothing.
pub proof fn merge_identity(x: CacheControl)
    ensures
        x.merged(CacheControl::identity()) == x,
        CacheControl::identity().merged(x) == x,
{
}

/// The directive that covers all of `fields`: what is left when each of
/// them is merged in turn into the identity.
pub open spec fn merged_all(fields: Seq<CacheControl>) -> CacheControl
    decreases fields.len(),
{
    if fields.len() == 0 {
        CacheControl::identity()
    } else {
        merged_all(fields.drop_last()).merged(fields.last())
    }
}

/// What `merged_all` gives depends on which directives occur among the
/// fields, and on nothing else: it is public if all of them are, and its
/// age is the smallest age that one of them sets.
proof fn merged_all_by_members(fields: Seq<CacheControl>)
    ensures
        merged_all(fields).public <==> forall|x: CacheControl| #[trigger]
            fields.contains(x) ==> x.public,
        merged_all(fields).max_age == 0 <==> forall|x: CacheControl| #[trigger]
            fields.contains(x) ==> x.max_age == 0,
        merged_all(fields).max_age > 0 ==> exists|x: CacheControl| #[trigger]
            fields.contains(x) && x.max_age == merged_all(fields).max_age,
        forall|x: CacheControl| #[trigger]
            fields.contains(x) && x.max_age > 0 ==> 0 < merged_all(fields).max_age <= x.max_age,
    decreases fields.len(),
{
    if fields.len() > 0 {
        let earlier = fields.drop_last();
        let last = fields.last();
        merged_all_by_members(earlier);
        assert(fields =~= earlier.push(last));
        assert forall|x: CacheControl| fields.contains(x) <==> earlier.contains(x) || x
            == last by {
            vstd::seq_lib::lemma_seq_contains_after_push(earlier, last, x);
        }
        assert(fields.contains(last));
        if merged_all(fields).max_age > 0 && merged_all(fields).max_age != last.max_age {
            let x = choose|x: CacheControl| #[trigger]
                earlier.contains(x) && x.max_age == merged_all(earlier).max_age;
            assert(fields.contains(x));
        }
    }
}

/// The order in which the directives of the fields are merged does not
/// matter: two runs over the same fields, each from the identity, end with
/// the same directive.
pub proof fn merge_order_is_irrelevant(fields: Seq<CacheControl>, reordered: Seq<CacheControl>)
    requires
        fields.to_multiset() == reordered.to_multiset(),
    ensures
        merged_all(fields) == merged_all(reordered),
{
    assert forall|x: CacheControl| fields.contains(x) <==> reordered.contains(x) by {
        vstd::seq_lib::to_multiset_contains(fields, x);
        vstd::seq_lib::to_multiset_contains(reordered, x);
    }
    merged_all_by_members(fields);
    merged_all_by_members(reordered);
}

} // verus!
