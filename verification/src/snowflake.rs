//! The inner storage of an ID.
use vstd::prelude::*;

use vstd::std_specs::cmp::PartialEqSpec;

use crate::decimal::{decimal_text, decimal_u64, lemma_decimal_round_trip};

verus! {

/// A Discord ID: any `u64` but `u64::MAX`, which an ID never is (and which the
/// `NonMaxU64` form of an ID cannot hold).
#[derive(Clone, Copy, Debug, PartialEq, Eq, Structural, Hash, PartialOrd, Ord)]
#[must_use]
pub struct Snowflake(u64);

impl View for Snowflake {
    type V = u64;

    closed spec fn view(&self) -> u64 {
        self.0
    }
}

impl Snowflake {
    /// No ID is `u64::MAX`.
    #[verifier::type_invariant]
    spec fn not_max(self) -> bool {
        self.0 != u64::MAX
    }

    /// Wraps `id`; `u64::MAX` is not an ID.
    pub fn new(id: u64) -> (s: Self)
        requires
            id != u64::MAX,
        ensures
            s@ == id,
    {
        Snowflake(id)
    }

    /// Wraps `id` where it is an ID, and gives `None` for `u64::MAX`.
    pub fn try_new(id: u64) -> (r: Option<Self>)
        ensures
            r is Some <==> id != u64::MAX,
            r matches Some(s) ==> s@ == id,
    {
        if id == u64::MAX {
            None
        } else {
            Some(Snowflake(id))
        }
    }

    /// Wraps a signed `id` where it is an ID: a negative number is none.
    pub fn try_from_i64(id: i64) -> (r: Option<Self>)
        ensures
            r is Some <==> id >= 0,
            r matches Some(s) ==> s@ == id as u64,
    {
        if id < 0 {
            None
        } else {
            Some(Snowflake(id as u64))
        }
    }

    /// The number of the ID.
    #[must_use]
    pub fn get(self) -> (id: u64)
        ensures
            id == self@,
            id != u64::MAX,
    {
        proof {
            use_type_invariant(&self);
        }
        self.0
    }

    /// The decimal text of the ID, as `Display` writes it.
    pub fn to_string(&self) -> (s: String)
        ensures
            s@ == decimal_text(self@ as nat),
    {
        format_u64(self.0)
    }
}

impl core::str::FromStr for Snowflake {
    type Err = nonmax::ParseIntError;

    /// Reads an ID from its decimal text: an optional `+`, then digits; a value
    /// that does not fit in a `u64`, or is `u64::MAX`, is refused.
    fn from_str(s: &str) -> (r: Result<Self, Self::Err>)
        ensures
            r is Ok <==> (decimal_u64(s@) matches Some(v) && v != u64::MAX),
            r matches Ok(id) ==> decimal_u64(s@) == Some(id@),
    {
        match parse_nonmax_u64(s) {
            Ok(id) => Ok(Snowflake(id)),
            Err(e) => Err(e),
        }
    }
}

impl PartialEq<u64> for Snowflake {
    fn eq(&self, u: &u64) -> (b: bool) {
        self.0 == *u
    }
}

impl vstd::std_specs::cmp::PartialEqSpecImpl<u64> for Snowflake {
    open spec fn obeys_eq_spec() -> bool {
        true
    }

    open spec fn eq_spec(&self, u: &u64) -> bool {
        self@ == *u
    }
}

impl Default for Snowflake {
    /// The ID zero.
    fn default() -> (s: Self)
        ensures
            s@ == 0,
    {
        Snowflake(0)
    }
}

/// Reading the decimal text that [`Snowflake::to_string`] writes for an ID,
/// with [`Snowflake::from_str`], succeeds and gives the same ID back.
pub proof fn lemma_text_round_trip(id: u64)
    requires
        id != u64::MAX,
    ensures
        decimal_u64(decimal_text(id as nat)) == Some(id),
{
    lemma_decimal_round_trip(id);
}

/// An ID equals a plain number exactly when the ID's number is that number:
/// `id == u` compares the whole `u64`, and `==` obeys this.
pub proof fn lemma_eq_u64(id: Snowflake, u: u64)
    ensures
        <Snowflake as PartialEqSpec<u64>>::obeys_eq_spec(),
        id.eq_spec(&u) <==> id@ == u,
{
}

/// `<NonMaxU64 as FromStr>::from_str`, read as a `u64`. nonmax parses with
/// `u64::from_str` (documented to take an optional `+` and then only ASCII
/// digits, and to fail on an empty string and on overflow) and then refuses
/// `u64::MAX`; this contract claims exactly that of it.
#[verifier::external_body]
fn parse_nonmax_u64(s: &str) -> (r: Result<u64, nonmax::ParseIntError>)
    ensures
        r is Ok <==> (decimal_u64(s@) matches Some(v) && v != u64::MAX),
        r matches Ok(v) ==> decimal_u64(s@) == Some(v),
{
    match s.parse::<nonmax::NonMaxU64>() {
        Ok(n) => Ok(u64::from(n)),
        Err(e) => Err(e),
    }
}

/// `<u64 as ToString>::to_string`, through `u64`'s `Display`: claimed to write
/// the decimal digits of `n`, with no sign and no leading zeros.
#[verifier::external_body]
fn format_u64(n: u64) -> (s: String)
    ensures
        s@ == decimal_text(n as nat),
{
    n.to_string()
}

/// `nonmax::ParseIntError`, the error of a failed parse.
#[verifier::external_type_specification]
#[verifier::external_body]
pub struct ExParseIntError(nonmax::ParseIntError);

} // verus!
