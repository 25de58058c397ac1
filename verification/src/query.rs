//! Assembly of URL query strings from `key=value` pairs.

use vstd::prelude::*;
use vstd::string::StringExecFns;
use crate::text::{decimal, decimal_nat, push_decimal_i64, push_decimal_u64};

verus! {

/// One `key=value` pair.
pub open spec fn pair(key: Seq<char>, value: Seq<char>) -> Seq<char> {
    key + seq!['='] + value
}

/// The pair for `key` when a value is present, nothing otherwise.
pub open spec fn optional(key: Seq<char>, value: Option<Seq<char>>) -> Seq<Seq<char>> {
    match value {
        Some(v) => seq![pair(key, v)],
        None => Seq::empty(),
    }
}

/// How a boolean flag is written in a query: `1` for true, `0` for false.
pub open spec fn flag(value: bool) -> Seq<char> {
    if value {
        seq!['1']
    } else {
        seq!['0']
    }
}

/// The text of an optional string.
pub open spec fn text_of(value: Option<String>) -> Option<Seq<char>> {
    match value {
        Some(s) => Some(s@),
        None => None,
    }
}

/// The text of an optional string slice.
pub open spec fn str_of(value: Option<&str>) -> Option<Seq<char>> {
    match value {
        Some(s) => Some(s@),
        None => None,
    }
}

/// The decimal numeral of an optional unsigned number.
pub open spec fn numeral_of_u32(value: Option<u32>) -> Option<Seq<char>> {
    match value {
        Some(n) => Some(decimal_nat(n as nat)),
        None => None,
    }
}

/// The decimal numeral of an optional signed number.
pub open spec fn numeral_of_i32(value: Option<i32>) -> Option<Seq<char>> {
    match value {
        Some(n) => Some(decimal(n as int)),
        None => None,
    }
}

/// The decimal numeral of an optional signed number.
pub open spec fn numeral_of_i64(value: Option<i64>) -> Option<Seq<char>> {
    match value {
        Some(n) => Some(decimal(n as int)),
        None => None,
    }
}

/// The digit of an optional flag.
pub open spec fn flag_of(value: Option<bool>) -> Option<Seq<char>> {
    match value {
        Some(b) => Some(flag(b)),
        None => None,
    }
}

/// The parts joined with `&`.
pub open spec fn joined(parts: Seq<Seq<char>>) -> Seq<char>
    decreases parts.len(),
{
    if parts.len() == 0 {
        Seq::empty()
    } else if parts.len() == 1 {
        parts[0]
    } else {
        joined(parts.drop_last()).push('&') + parts.last()
    }
}

/// The query string for the given pairs: empty when there are none,
/// otherwise `?` followed by the pairs joined with `&`.
pub open spec fn query_string(parts: Seq<Seq<char>>) -> Seq<char> {
    if parts.len() == 0 {
        Seq::empty()
    } else {
        seq!['?'] + joined(parts)
    }
}

/// The text of each string in `parts`.
pub open spec fn texts(parts: Seq<String>) -> Seq<Seq<char>> {
    parts.map_values(|s: String| s@)
}

/// An ordered list of `key=value` pairs under construction.
pub struct QueryParts {
    parts: Vec<String>,
}

impl View for QueryParts {
    type V = Seq<Seq<char>>;

    closed spec fn view(&self) -> Seq<Seq<char>> {
        texts(self.parts@)
    }
}

impl QueryParts {
    /// An empty list of pairs.
    pub fn new() -> (q: Self)
        ensures
            q@ == Seq::<Seq<char>>::empty(),
    {
        let q = QueryParts { parts: Vec::new() };
        assert(q@ =~= Seq::<Seq<char>>::empty());
        q
    }

    fn push_part(&mut self, part: String)
        ensures
            final(self)@ == old(self)@.push(part@),
    {
        self.parts.push(part);
        assert(texts(self.parts@) =~= texts(old(self).parts@).push(part@));
    }

    /// Appends `key=value`.
    pub fn push_text(&mut self, key: &str, value: &str)
        ensures
            final(self)@ == old(self)@.push(pair(key@, value@)),
    {
        let mut part = String::from_str(key);
        part.push('=');
        part.append(value);
        assert(part@ =~= pair(key@, value@));
        self.push_part(part);
    }

    /// Appends `key=value` with `value` written as a decimal numeral.
    pub fn push_u64(&mut self, key: &str, value: u64)
        ensures
            final(self)@ == old(self)@.push(pair(key@, decimal_nat(value as nat))),
    {
        let mut part = String::from_str(key);
        part.push('=');
        push_decimal_u64(&mut part, value);
        assert(part@ =~= pair(key@, decimal_nat(value as nat)));
        self.push_part(part);
    }

    /// Appends `key=value` with `value` written as a signed decimal numeral.
    pub fn push_i64(&mut self, key: &str, value: i64)
        ensures
            final(self)@ == old(self)@.push(pair(key@, decimal(value as int))),
    {
        let mut part = String::from_str(key);
        part.push('=');
        push_decimal_i64(&mut part, value);
        assert(part@ =~= pair(key@, decimal(value as int)));
        self.push_part(part);
    }

    /// Appends `key=1` or `key=0`.
    pub fn push_flag(&mut self, key: &str, value: bool)
        ensures
            final(self)@ == old(self)@.push(pair(key@, flag(value))),
    {
        let mut part = String::from_str(key);
        part.push('=');
        part.push(if value { '1' } else { '0' });
        assert(part@ =~= pair(key@, flag(value)));
        self.push_part(part);
    }

    /// Appends `key=value` when a value is present.
    pub fn push_opt_str(&mut self, key: &str, value: Option<&str>)
        ensures
            final(self)@ == old(self)@ + optional(key@, str_of(value)),
    {
        match value {
            Some(s) => {
                self.push_text(key, s);
                assert(old(self)@.push(pair(key@, s@)) =~= old(self)@ + seq![pair(key@, s@)]);
            },
            None => {
                assert(old(self)@ + Seq::<Seq<char>>::empty() =~= old(self)@);
            },
        }
    }

    /// Appends `key=value` when a value is present.
    pub fn push_opt_text(&mut self, key: &str, value: &Option<String>)
        ensures
            final(self)@ == old(self)@ + optional(key@, text_of(*value)),
    {
        match value {
            Some(s) => {
                self.push_text(key, s.as_str());
                assert(old(self)@.push(pair(key@, s@)) =~= old(self)@ + seq![pair(key@, s@)]);
            },
            None => {
                assert(old(self)@ + Seq::<Seq<char>>::empty() =~= old(self)@);
            },
        }
    }

    /// Appends `key=value` in decimal when a value is present.
    pub fn push_opt_u32(&mut self, key: &str, value: Option<u32>)
        ensures
            final(self)@ == old(self)@ + optional(key@, numeral_of_u32(value)),
    {
        match value {
            Some(n) => {
                self.push_u64(key, n as u64);
                assert(old(self)@.push(pair(key@, decimal_nat(n as nat))) =~= old(self)@ + seq![
                    pair(key@, decimal_nat(n as nat)),
                ]);
            },
            None => {
                assert(old(self)@ + Seq::<Seq<char>>::empty() =~= old(self)@);
            },
        }
    }

    /// Appends `key=value` in signed decimal when a value is present.
    pub fn push_opt_i32(&mut self, key: &str, value: Option<i32>)
        ensures
            final(self)@ == old(self)@ + optional(key@, numeral_of_i32(value)),
    {
        match value {
            Some(n) => {
                self.push_i64(key, n as i64);
                assert(old(self)@.push(pair(key@, decimal(n as int))) =~= old(self)@ + seq![
                    pair(key@, decimal(n as int)),
                ]);
            },
            None => {
                assert(old(self)@ + Seq::<Seq<char>>::empty() =~= old(self)@);
            },
        }
    }

    /// Appends `key=value` in signed decimal when a value is present.
    pub fn push_opt_i64(&mut self, key: &str, value: Option<i64>)
        ensures
            final(self)@ == old(self)@ + optional(key@, numeral_of_i64(value)),
    {
        match value {
            Some(n) => {
                self.push_i64(key, n);
                assert(old(self)@.push(pair(key@, decimal(n as int))) =~= old(self)@ + seq![
                    pair(key@, decimal(n as int)),
                ]);
            },
            None => {
                assert(old(self)@ + Seq::<Seq<char>>::empty() =~= old(self)@);
            },
        }
    }

    /// Appends `key=1` or `key=0` when a flag is present.
    pub fn push_opt_flag(&mut self, key: &str, value: Option<bool>)
        ensures
            final(self)@ == old(self)@ + optional(key@, flag_of(value)),
    {
        match value {
            Some(b) => {
                self.push_flag(key, b);
                assert(old(self)@.push(pair(key@, flag(b))) =~= old(self)@ + seq![
                    pair(key@, flag(b)),
                ]);
            },
            None => {
                assert(old(self)@ + Seq::<Seq<char>>::empty() =~= old(self)@);
            },
        }
    }

    /// The finished query string.
    pub fn finish(&self) -> (query: String)
        ensures
            query@ == query_string(self@),
    {
        let mut query = String::new();
        let n = self.parts.len();
        if n == 0 {
            return query;
        }
        query.push('?');
        query.append(self.parts[0].as_str());
        assert(self@.take(1) =~= seq![self@[0]]);
        assert(query@ =~= seq!['?'] + joined(self@.take(1)));
        let mut i: usize = 1;
        while i < n
            invariant
                1 <= i <= n,
                n == self.parts.len(),
                query@ == seq!['?'] + joined(self@.take(i as int)),
            decreases n - i,
        {
            query.push('&');
            query.append(self.parts[i].as_str());
            proof {
                let next = self@.take(i + 1);
                assert(next.drop_last() =~= self@.take(i as int));
                assert(next.last() == self.parts[i as int]@);
                assert(query@ =~= seq!['?'] + joined(next));
            }
            i += 1;
        }
        assert(self@.take(n as int) =~= self@);
        query
    }
}

} // verus!
