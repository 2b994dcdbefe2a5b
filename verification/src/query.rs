//! The query parser.
//!
//! Pages read their search value from the `q` parameter of the URL query
//! string. The value is the integer the parameter denotes; a missing
//! parameter or anything that is not a valid integer literal degrades
//! silently to 0, and no error is ever surfaced.

use vstd::prelude::*;

verus! {

/// Whether `c` is a decimal digit.
pub open spec fn is_digit(c: char) -> bool {
    48 <= c as int <= 57
}

/// The value of a decimal digit.
pub open spec fn digit_val(c: char) -> int {
    c as int - 48
}

/// Whether every character of `s` is a decimal digit.
pub open spec fn all_digits(s: Seq<char>) -> bool {
    forall|i: int| 0 <= i < s.len() ==> is_digit(s[i])
}

/// The value a digit string denotes, most significant digit first.
pub open spec fn digits_value(s: Seq<char>) -> int
    decreases s.len(),
{
    if s.len() == 0 {
        0
    } else {
        digits_value(s.drop_last()) * 10 + digit_val(s.last())
    }
}

/// A digit string never denotes a negative value.
pub proof fn lemma_digits_value_nonneg(s: Seq<char>)
    requires
        all_digits(s),
    ensures
        digits_value(s) >= 0,
    decreases s.len(),
{
    if s.len() > 0 {
        lemma_digits_value_nonneg(s.drop_last());
    }
}

/// The integer `s` denotes, if `s` is a valid integer literal: an
/// optional sign followed by one or more decimal digits. Anything else
/// denotes nothing.
pub open spec fn spec_parse_int(s: Seq<char>) -> Option<int> {
    if s.len() > 0 && (s[0] == '+' || s[0] == '-') {
        let body = s.subrange(1, s.len() as int);
        if body.len() > 0 && all_digits(body) {
            if s[0] == '-' {
                Some(-digits_value(body))
            } else {
                Some(digits_value(body))
            }
        } else {
            None
        }
    } else if s.len() > 0 && all_digits(s) {
        Some(digits_value(s))
    } else {
        None
    }
}

/// The search value a raw string yields: the integer it denotes when it
/// is a valid integer literal whose value is representable, else 0.
pub open spec fn spec_parse_search(s: Seq<char>) -> i32 {
    match spec_parse_int(s) {
        Some(v) => if i32::MIN <= v <= i32::MAX {
            v as i32
        } else {
            0
        },
        None => 0,
    }
}

/// Parses a search value: the integer `s` denotes, or 0 when `s` is not
/// a valid integer literal or its value does not fit. A parse failure is
/// coerced, never surfaced.
pub fn parse_search(s: &str) -> (r: i32)
    ensures
        r == spec_parse_search(s@),
{
    let n = s.unicode_len();
    if n == 0 {
        return 0;
    }
    let c0 = s.get_char(0);
    let neg = c0 == '-';
    let has_sign = neg || c0 == '+';
    let start: usize = if has_sign {
        1
    } else {
        0
    };
    if start == n {
        // a sign with no digits after it
        return 0;
    }
    let mut i: usize = start;
    let mut acc: u64 = 0;
    while i < n
        invariant
            n == s@.len(),
            start <= i <= n,
            start < n,
            has_sign == (s@[0] == '+' || s@[0] == '-'),
            neg == (s@[0] == '-'),
            start == if has_sign { 1int } else { 0int },
            forall|j: int| start <= j < i ==> is_digit(s@[j]),
            acc <= 21474836489,
            digits_value(s@.subrange(start as int, i as int)) <= 2147483648 ==> acc
                == digits_value(s@.subrange(start as int, i as int)),
            digits_value(s@.subrange(start as int, i as int)) > 2147483648 ==> acc > 2147483648,
        decreases n - i,
    {
        let c = s.get_char(i);
        let u = c as u32;
        if u < 48 || u > 57 {
            // not a digit: the whole string is not a valid literal
            proof {
                if has_sign {
                    let body = s@.subrange(1, n as int);
                    assert(body[i - 1] == s@[i as int]);
                    assert(!all_digits(body));
                } else {
                    assert(!all_digits(s@));
                }
            }
            return 0;
        }
        let d = (u - 48) as u64;
        proof {
            assert(s@.subrange(start as int, i as int + 1).drop_last() =~= s@.subrange(
                start as int,
                i as int,
            ));
            lemma_digits_value_nonneg(s@.subrange(start as int, i as int));
        }
        if acc <= 2147483648 {
            acc = acc * 10 + d;
        }
        i = i + 1;
    }
    proof {
        assert(s@.subrange(start as int, n as int) =~= if has_sign {
            s@.subrange(1, n as int)
        } else {
            s@
        });
        lemma_digits_value_nonneg(s@.subrange(start as int, n as int));
    }
    if neg {
        if acc <= 2147483648 {
            let v: i64 = -(acc as i64);
            v as i32
        } else {
            0
        }
    } else {
        if acc <= 2147483647 {
            acc as i32
        } else {
            0
        }
    }
}

/// The first position at or after `from` where `c` occurs in `s`, or
/// `s.len()` when it does not occur there.
pub open spec fn scan_for(s: Seq<char>, c: char, from: int) -> int
    decreases s.len() - from,
{
    if from < 0 || from >= s.len() {
        s.len() as int
    } else if s[from] == c {
        from
    } else {
        scan_for(s, c, from + 1)
    }
}

/// What `scan_for` returns: a position in `[from, s.len()]`, holding `c`
/// unless it is the end, with no `c` anywhere before it.
pub proof fn lemma_scan_for_props(s: Seq<char>, c: char, from: int)
    requires
        0 <= from <= s.len(),
    ensures
        from <= scan_for(s, c, from) <= s.len(),
        scan_for(s, c, from) < s.len() ==> s[scan_for(s, c, from)] == c,
        forall|j: int| from <= j < scan_for(s, c, from) ==> s[j] != c,
    decreases s.len() - from,
{
    if from < s.len() && s[from] != c {
        lemma_scan_for_props(s, c, from + 1);
    }
}

/// Conversely, a position with those properties is what `scan_for`
/// returns.
pub proof fn lemma_scan_for_is(s: Seq<char>, c: char, from: int, k: int)
    requires
        0 <= from <= k <= s.len(),
        forall|j: int| from <= j < k ==> s[j] != c,
        k == s.len() || s[k] == c,
    ensures
        scan_for(s, c, from) == k,
    decreases k - from,
{
    if from < k {
        lemma_scan_for_is(s, c, from + 1, k);
    }
}

/// The (name, value) pair a raw segment denotes: what stands before the
/// first `=` names the parameter, what stands after it is the value; a
/// segment without `=` is a name with an empty value.
pub open spec fn spec_pair_of_segment(seg: Seq<char>) -> (Seq<char>, Seq<char>) {
    let k = scan_for(seg, '=', 0);
    if k == seg.len() {
        (seg, Seq::empty())
    } else {
        (seg.subrange(0, k), seg.subrange(k + 1, seg.len() as int))
    }
}

/// The pairs of the query string from position `i` on: one pair per
/// `&`-separated segment.
pub open spec fn spec_pairs_from(s: Seq<char>, i: int) -> Seq<(Seq<char>, Seq<char>)>
    decreases s.len() - i
        when 0 <= i <= s.len()
        via spec_pairs_from_dec
{
    let j = scan_for(s, '&', i);
    let pair = spec_pair_of_segment(s.subrange(i, j));
    if j == s.len() {
        seq![pair]
    } else {
        seq![pair] + spec_pairs_from(s, j + 1)
    }
}

#[via_fn]
proof fn spec_pairs_from_dec(s: Seq<char>, i: int) {
    lemma_scan_for_props(s, '&', i);
}

/// The pairs a whole query string denotes.
pub open spec fn spec_parse_query(s: Seq<char>) -> Seq<(Seq<char>, Seq<char>)> {
    spec_pairs_from(s, 0)
}

/// The value of `name` in a pair list: the last occurrence decides, as
/// it does when the pairs are inserted into a map in order.
pub open spec fn spec_lookup(
    pairs: Seq<(Seq<char>, Seq<char>)>,
    name: Seq<char>,
) -> Option<Seq<char>>
    decreases pairs.len(),
{
    if pairs.len() == 0 {
        None
    } else if pairs.last().0 == name {
        Some(pairs.last().1)
    } else {
        spec_lookup(pairs.drop_last(), name)
    }
}

/// The search value a query map yields: the parse of the `q` parameter,
/// with a missing parameter reading as the empty string, hence 0.
pub open spec fn spec_search_of(pairs: Seq<(Seq<char>, Seq<char>)>) -> i32 {
    match spec_lookup(pairs, "q"@) {
        Some(v) => spec_parse_search(v),
        None => 0,
    }
}

/// The parameter map the current URL's query string denotes, re-derived
/// on every navigation or update event.
pub struct QueryMap {
    pub pairs: Vec<(String, String)>,
}

impl View for QueryMap {
    type V = Seq<(Seq<char>, Seq<char>)>;

    open spec fn view(&self) -> Seq<(Seq<char>, Seq<char>)> {
        self.pairs@.map_values(|p: (String, String)| (p.0@, p.1@))
    }
}

impl QueryMap {
    /// The value of `name`, if the query string set it.
    pub fn get(&self, name: &str) -> (r: Option<String>)
        ensures
            match r {
                Some(v) => spec_lookup(self@, name@) == Some(v@),
                None => spec_lookup(self@, name@) is None,
            },
    {
        let mut i: usize = self.pairs.len();
        proof {
            assert(self@.subrange(0, i as int) =~= self@);
        }
        while i > 0
            invariant
                i <= self.pairs.len(),
                self@.len() == self.pairs.len(),
                spec_lookup(self@, name@) == spec_lookup(self@.subrange(0, i as int), name@),
            decreases i,
        {
            proof {
                assert(self@.subrange(0, i as int).last() == self@[i - 1]);
                assert(self@.subrange(0, i as int).drop_last() =~= self@.subrange(
                    0,
                    i as int - 1,
                ));
            }
            if crate::text::str_eq(self.pairs[i - 1].0.as_str(), name) {
                return Some(self.pairs[i - 1].1.clone());
            }
            i = i - 1;
        }
        proof {
            assert(self@.subrange(0, 0) =~= Seq::<(Seq<char>, Seq<char>)>::empty());
        }
        None
    }
}

/// Parses a query string into its parameter pairs: segments are split
/// on `&`, and each segment names a parameter before its first `=`.
pub fn parse_query(s: &str) -> (r: QueryMap)
    ensures
        r@ == spec_parse_query(s@),
{
    let n = s.unicode_len();
    let mut pairs: Vec<(String, String)> = Vec::new();
    let mut i: usize = 0;
    loop
        invariant
            n == s@.len(),
            0 <= i <= n,
            spec_parse_query(s@) == pairs@.map_values(|p: (String, String)| (p.0@, p.1@))
                + spec_pairs_from(s@, i as int),
        decreases n - i,
    {
        let ghost prefix = pairs@.map_values(|p: (String, String)| (p.0@, p.1@));
        let mut j: usize = i;
        while j < n && s.get_char(j) != '&'
            invariant
                n == s@.len(),
                i <= j <= n,
                forall|m: int| i <= m < j ==> s@[m] != '&',
            decreases n - j,
        {
            j = j + 1;
        }
        let mut k: usize = i;
        while k < j && s.get_char(k) != '='
            invariant
                i <= k <= j <= n,
                n == s@.len(),
                forall|m: int| i <= m < k ==> s@[m] != '=',
            decreases j - k,
        {
            k = k + 1;
        }
        let ghost seg = s@.subrange(i as int, j as int);
        proof {
            lemma_scan_for_is(s@, '&', i as int, j as int);
            assert(forall|m: int| 0 <= m < k - i ==> seg[m] != '=');
            if k < j {
                assert(seg[k - i] == '=');
            }
            lemma_scan_for_is(seg, '=', 0, k as int - i as int);
        }
        let name = s.substring_char(i, k);
        let value = if k < j {
            s.substring_char(k + 1, j)
        } else {
            s.substring_char(j, j)
        };
        proof {
            if k < j {
                assert(name@ =~= seg.subrange(0, k - i));
                assert(value@ =~= seg.subrange(k - i + 1, seg.len() as int));
            } else {
                assert(name@ =~= seg);
                assert(value@ =~= Seq::<char>::empty());
            }
        }
        pairs.push((String::from_str(name), String::from_str(value)));
        proof {
            assert(pairs@.map_values(|p: (String, String)| (p.0@, p.1@)) =~= prefix.push(
                spec_pair_of_segment(seg),
            ));
            assert(seq![spec_pair_of_segment(seg)] + spec_pairs_from(s@, j as int + 1)
                =~= seq![spec_pair_of_segment(seg)].add(spec_pairs_from(s@, j as int + 1)));
        }
        if j == n {
            proof {
                assert(prefix.push(spec_pair_of_segment(seg)) =~= prefix + seq![
                    spec_pair_of_segment(seg),
                ]);
            }
            return QueryMap { pairs };
        }
        proof {
            assert(prefix.push(spec_pair_of_segment(seg)) + spec_pairs_from(s@, j as int + 1)
                =~= prefix + (seq![spec_pair_of_segment(seg)] + spec_pairs_from(
                s@,
                j as int + 1,
            )));
        }
        i = j + 1;
    }
}

/// The search value the current URL carries: the `q` parameter parsed
/// as an integer, 0 when missing or malformed.
pub fn search_value(qm: &QueryMap) -> (r: i32)
    ensures
        r == spec_search_of(qm@),
{
    match qm.get("q") {
        Some(v) => parse_search(v.as_str()),
        None => 0,
    }
}

/// The query string the search form submits when its field holds
/// `input`: the single parameter `q=input`.
pub fn submit_search(input: &str) -> (r: String)
    ensures
        r@ == "q="@ + input@,
{
    let prefix: String = String::from_str("q=");
    prefix.concat(input)
}

/// A query string of one pair parses back to exactly that pair, as long
/// as neither side contains a separator character.
pub proof fn lemma_single_pair_round_trip(name: Seq<char>, value: Seq<char>)
    requires
        forall|i: int| 0 <= i < name.len() ==> name[i] != '&' && name[i] != '=',
        forall|i: int| 0 <= i < value.len() ==> value[i] != '&' && value[i] != '=',
    ensures
        spec_parse_query(name + seq!['='] + value) == seq![(name, value)],
{
    let s = name + seq!['='] + value;
    assert forall|j: int| 0 <= j < s.len() implies s[j] != '&' by {
        if j < name.len() {
            assert(s[j] == name[j]);
        } else if j == name.len() {
            assert(s[j] == '=');
        } else {
            assert(s[j] == value[j - name.len() - 1]);
        }
    }
    lemma_scan_for_is(s, '&', 0, s.len() as int);
    assert(forall|j: int| 0 <= j < name.len() ==> s[j] == name[j] && s[j] != '=');
    assert(s[name.len() as int] == '=');
    lemma_scan_for_is(s, '=', 0, name.len() as int);
    let seg = s.subrange(0, s.len() as int);
    assert(seg =~= s);
    assert(seg.subrange(0, name.len() as int) =~= name);
    assert(seg.subrange(name.len() as int + 1, seg.len() as int) =~= value);
    assert(spec_parse_query(s) =~= seq![(name, value)]);
}

/// Round trip: submitting `input` in the search field yields the query
/// string `q=input`, and the search value parsed back from that query
/// string is the integer `input` denotes.
pub proof fn lemma_search_round_trip(input: Seq<char>)
    requires
        forall|i: int| 0 <= i < input.len() ==> input[i] != '&' && input[i] != '=',
    ensures
        spec_search_of(spec_parse_query("q="@ + input)) == spec_parse_search(input),
{
    reveal_strlit("q=");
    reveal_strlit("q");
    assert("q="@ + input =~= "q"@ + seq!['='] + input);
    lemma_single_pair_round_trip("q"@, input);
    assert(spec_lookup(seq![("q"@, input)], "q"@) == Some(input));
}

} // verus!
