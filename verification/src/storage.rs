//! The on-disk format of the reference-data tables.
//!
//! A table is stored as one JSON object mapping decimal id keys to
//! name strings, `{"1":"a","-2":"b"}`.  Emission and parsing are both
//! verified, and parsing an emitted table yields exactly the emitted
//! entries: the round-trip law [`lemma_storage_round_trip`].

use vstd::prelude::*;
use crate::text::{push_dec_i64, push_one, push_str_chars, spec_dec_int, spec_dec_nat, spec_digit,
    str_chars, string_of_chars};

verus! {

// ---------------------------------------------------------------------------
// Emission
// ---------------------------------------------------------------------------

/// The escape of one character: quote and backslash get a backslash,
/// every other character stands as itself.
pub open spec fn spec_escape_char(c: char) -> Seq<char> {
    if c == '"' || c == '\\' {
        seq!['\\', c]
    } else {
        seq![c]
    }
}

/// The escape of a name.
pub open spec fn spec_escape(s: Seq<char>) -> Seq<char>
    decreases s.len(),
{
    if s.len() == 0 {
        Seq::<char>::empty()
    } else {
        spec_escape_char(s[0]) + spec_escape(s.drop_first())
    }
}

/// One emitted entry: the decimal key in quotes, a colon, the escaped
/// name in quotes.
pub open spec fn spec_entry(k: int, v: Seq<char>) -> Seq<char> {
    seq!['"'] + spec_dec_int(k) + seq!['"', ':', '"'] + spec_escape(v) + seq!['"']
}

/// The emitted entry list, comma-separated.
pub open spec fn spec_entries(es: Seq<(int, Seq<char>)>) -> Seq<char>
    decreases es.len(),
{
    if es.len() == 0 {
        Seq::<char>::empty()
    } else if es.len() == 1 {
        spec_entry(es[0].0, es[0].1)
    } else {
        spec_entry(es[0].0, es[0].1) + seq![','] + spec_entries(es.drop_first())
    }
}

/// The emitted table: the entry list in braces.
pub open spec fn spec_emit(es: Seq<(int, Seq<char>)>) -> Seq<char> {
    seq!['{'] + spec_entries(es) + seq!['}']
}

/// Escaping distributes over appending one character.
proof fn lemma_escape_push(s: Seq<char>, c: char)
    ensures
        spec_escape(s.push(c)) == spec_escape(s) + spec_escape_char(c),
    decreases s.len(),
{
    if s.len() == 0 {
        assert(s.push(c)[0] == c);
        assert(s.push(c).drop_first() =~= Seq::<char>::empty());
        assert(spec_escape(Seq::<char>::empty()) == Seq::<char>::empty());
        assert(spec_escape(s.push(c)) == spec_escape_char(c) + Seq::<char>::empty());
        assert(spec_escape_char(c) + Seq::<char>::empty() =~= Seq::<char>::empty()
            + spec_escape_char(c));
    } else {
        lemma_escape_push(s.drop_first(), c);
        assert(s.push(c).drop_first() =~= s.drop_first().push(c));
        assert(s.push(c)[0] == s[0]);
        assert(spec_escape(s.push(c)) =~= spec_escape(s) + spec_escape_char(c));
    }
}

/// The entry list emission grows by a comma and one entry.
proof fn lemma_entries_push(es: Seq<(int, Seq<char>)>, kv: (int, Seq<char>))
    ensures
        es.len() == 0 ==> spec_entries(es.push(kv)) == spec_entry(kv.0, kv.1),
        es.len() > 0 ==> spec_entries(es.push(kv)) == spec_entries(es) + seq![','] + spec_entry(
            kv.0,
            kv.1,
        ),
    decreases es.len(),
{
    if es.len() == 0 {
        assert(es.push(kv)[0] == kv);
        assert(es.push(kv).len() == 1);
    } else if es.len() == 1 {
        assert(es.push(kv).drop_first() =~= es.drop_first().push(kv));
        lemma_entries_push(es.drop_first(), kv);
        assert(es.push(kv)[0] == es[0]);
        assert(spec_entries(es.push(kv)) =~= spec_entries(es) + seq![','] + spec_entry(
            kv.0,
            kv.1,
        ));
    } else {
        assert(es.push(kv).drop_first() =~= es.drop_first().push(kv));
        lemma_entries_push(es.drop_first(), kv);
        assert(es.push(kv)[0] == es[0]);
        assert(spec_entries(es.push(kv)) =~= spec_entries(es) + seq![','] + spec_entry(
            kv.0,
            kv.1,
        ));
    }
}

/// The entry view of an exec entry list.
pub open spec fn spec_entries_view(v: Seq<(i32, String)>) -> Seq<(int, Seq<char>)> {
    v.map_values(|e: (i32, String)| (e.0 as int, e.1@))
}

fn push_escaped(out: &mut Vec<char>, s: &str)
    ensures
        final(out)@ == old(out)@ + spec_escape(s@),
{
    let chars = str_chars(s);
    let n = chars.len();
    let mut i: usize = 0;
    while i < n
        invariant
            i <= n,
            n == s@.len(),
            chars@ == s@,
            out@ == old(out)@ + spec_escape(s@.subrange(0, i as int)),
        decreases n - i,
    {
        let c = chars[i];
        if c == '"' || c == '\\' {
            push_one(out, '\\');
            push_one(out, c);
        } else {
            push_one(out, c);
        }
        i = i + 1;
        proof {
            lemma_escape_push(s@.subrange(0, i - 1 as int), s@[i - 1]);
            assert(s@.subrange(0, i - 1 as int).push(s@[i - 1]) =~= s@.subrange(0, i as int));
            assert(out@ =~= old(out)@ + spec_escape(s@.subrange(0, i as int)));
        }
    }
    assert(s@.subrange(0, n as int) =~= s@);
}

fn push_entry(out: &mut Vec<char>, key: i32, value: &str)
    ensures
        final(out)@ == old(out)@ + spec_entry(key as int, value@),
{
    push_one(out, '"');
    push_dec_i64(out, key as i64);
    push_one(out, '"');
    push_one(out, ':');
    push_one(out, '"');
    push_escaped(out, value);
    push_one(out, '"');
    assert(out@ =~= old(out)@ + spec_entry(key as int, value@));
}

/// Emits an entry list as the on-disk table text.
pub fn emit_entries(entries: &Vec<(i32, String)>) -> (r: String)
    ensures
        r@ == spec_emit(spec_entries_view(entries@)),
{
    let mut out: Vec<char> = Vec::new();
    push_one(&mut out, '{');
    let n = entries.len();
    let mut i: usize = 0;
    while i < n
        invariant
            i <= n,
            n == entries@.len(),
            out@ == seq!['{'] + spec_entries(spec_entries_view(entries@.subrange(0, i as int))),
        decreases n - i,
    {
        if i > 0 {
            push_one(&mut out, ',');
        }
        let key = entries[i].0;
        let value_owned = entries[i].1.clone();
        push_entry(&mut out, key, value_owned.as_str());
        i = i + 1;
        proof {
            let prev = spec_entries_view(entries@.subrange(0, i - 1 as int));
            let now = spec_entries_view(entries@.subrange(0, i as int));
            let kv = (entries@[i - 1].0 as int, entries@[i - 1].1@);
            assert(now =~= prev.push(kv));
            lemma_entries_push(prev, kv);
            assert(out@ =~= seq!['{'] + spec_entries(now));
        }
    }
    push_one(&mut out, '}');
    proof {
        assert(entries@.subrange(0, n as int) =~= entries@);
        assert(out@ =~= spec_emit(spec_entries_view(entries@)));
    }
    string_of_chars(&out)
}

// ---------------------------------------------------------------------------
// Parsing
// ---------------------------------------------------------------------------

/// Whether a character is a decimal digit.
pub open spec fn spec_is_digit(c: char) -> bool {
    48 <= c as int && c as int <= 57
}

/// The value of a digit character.
pub open spec fn spec_digit_val(c: char) -> int {
    c as int - 48
}

/// The length of the digit run starting at a position.
pub open spec fn spec_digit_run(s: Seq<char>, i: int) -> int
    decreases s.len() - i,
{
    if 0 <= i && i < s.len() && spec_is_digit(s[i]) {
        1 + spec_digit_run(s, i + 1)
    } else {
        0
    }
}

/// The value of a digit sequence, most significant first.
pub open spec fn spec_digits_val(ds: Seq<char>) -> int
    decreases ds.len(),
{
    if ds.len() == 0 {
        0
    } else {
        spec_digits_val(ds.drop_last()) * 10 + spec_digit_val(ds.last())
    }
}

/// Parses the digit run at a position: its value and the position
/// after it; nothing when no digit stands there.
pub open spec fn spec_parse_nat(s: Seq<char>, i: int) -> Option<(int, int)> {
    let k = spec_digit_run(s, i);
    if k == 0 {
        None
    } else {
        Some((spec_digits_val(s.subrange(i, i + k)), i + k))
    }
}

/// Parses an optionally signed decimal key; nothing when no digit
/// stands there or the value leaves the table's key range.
pub open spec fn spec_parse_int(s: Seq<char>, i: int) -> Option<(int, int)> {
    if 0 <= i && i < s.len() && s[i] == '-' {
        match spec_parse_nat(s, i + 1) {
            None => None,
            Some((n, j)) => if n <= 0x8000_0000 {
                Some((-n, j))
            } else {
                None
            },
        }
    } else {
        match spec_parse_nat(s, i) {
            None => None,
            Some((n, j)) => if n <= 0x7FFF_FFFF {
                Some((n, j))
            } else {
                None
            },
        }
    }
}

/// Parses a name from inside its quotes up to and over the closing
/// quote, undoing the escapes.
pub open spec fn spec_parse_string_body(s: Seq<char>, i: int) -> Option<(Seq<char>, int)>
    decreases s.len() - i,
{
    if i < 0 || i >= s.len() {
        None
    } else if s[i] == '"' {
        Some((Seq::<char>::empty(), i + 1))
    } else if s[i] == '\\' {
        if i + 1 < s.len() && (s[i + 1] == '"' || s[i + 1] == '\\') {
            match spec_parse_string_body(s, i + 2) {
                None => None,
                Some((v, j)) => Some((seq![s[i + 1]] + v, j)),
            }
        } else {
            None
        }
    } else {
        match spec_parse_string_body(s, i + 1) {
            None => None,
            Some((v, j)) => Some((seq![s[i]] + v, j)),
        }
    }
}

/// Parses one entry: quoted key, colon, quoted name.
pub open spec fn spec_parse_entry(s: Seq<char>, i: int) -> Option<((int, Seq<char>), int)> {
    if 0 <= i && i < s.len() && s[i] == '"' {
        match spec_parse_int(s, i + 1) {
            None => None,
            Some((k, j)) => if j + 2 < s.len() && s[j] == '"' && s[j + 1] == ':' && s[j + 2]
                == '"' {
                match spec_parse_string_body(s, j + 3) {
                    None => None,
                    Some((v, m)) => Some(((k, v), m)),
                }
            } else {
                None
            },
        }
    } else {
        None
    }
}

/// Parses a comma-separated entry list.
pub open spec fn spec_parse_entries(s: Seq<char>, i: int) -> Option<(Seq<(int, Seq<char>)>, int)>
    decreases s.len() - i,
{
    match spec_parse_entry(s, i) {
        None => None,
        Some((kv, j)) => if j < s.len() && s[j] == ',' {
            if i <= j {
                match spec_parse_entries(s, j + 1) {
                    None => None,
                    Some((rest, m)) => Some((seq![kv] + rest, m)),
                }
            } else {
                None
            }
        } else {
            Some((seq![kv], j))
        },
    }
}

/// Parses a whole table text: the entry list in braces, nothing left
/// over.
pub open spec fn spec_parse_object(s: Seq<char>) -> Option<Seq<(int, Seq<char>)>> {
    if s.len() >= 1 && s[0] == '{' {
        if s.len() == 2 && s[1] == '}' {
            Some(Seq::<(int, Seq<char>)>::empty())
        } else {
            match spec_parse_entries(s, 1) {
                None => None,
                Some((es, j)) => if j + 1 == s.len() && s[j] == '}' {
                    Some(es)
                } else {
                    None
                },
            }
        }
    } else {
        None
    }
}

/// The map a parsed entry list denotes, later entries winning.
pub open spec fn spec_entries_to_map(es: Seq<(int, Seq<char>)>) -> Map<int, Seq<char>>
    decreases es.len(),
{
    if es.len() == 0 {
        Map::<int, Seq<char>>::empty()
    } else {
        spec_entries_to_map(es.drop_last()).insert(es.last().0, es.last().1)
    }
}

// ---------------------------------------------------------------------------
// Parsing, executable
// ---------------------------------------------------------------------------

fn is_digit_char(c: char) -> (b: bool)
    ensures
        b == spec_is_digit(c),
{
    let u = c as u32;
    48 <= u && u <= 57
}

proof fn lemma_digits_val_nonneg(ds: Seq<char>)
    requires
        forall|t: int| 0 <= t < ds.len() ==> spec_is_digit(#[trigger] ds[t]),
    ensures
        spec_digits_val(ds) >= 0,
    decreases ds.len(),
{
    if ds.len() > 0 {
        lemma_digits_val_nonneg(ds.drop_last());
    }
}

proof fn lemma_digit_run_exact(s: Seq<char>, i: int, k: int)
    requires
        0 <= i,
        i + k <= s.len(),
        0 <= k,
        forall|t: int| i <= t < i + k ==> spec_is_digit(#[trigger] s[t]),
        i + k == s.len() || !spec_is_digit(s[i + k]),
    ensures
        spec_digit_run(s, i) == k,
    decreases k,
{
    if k > 0 {
        lemma_digit_run_exact(s, i + 1, k - 1);
    }
}

fn parse_int_at(s: &Vec<char>, i: usize) -> (r: Option<(i32, usize)>)
    ensures
        (match spec_parse_int(s@, i as int) {
            None => r is None,
            Some(kj) => r matches Some(x) && x.0 as int == kj.0 && x.1 as int == kj.1,
        }),
{
    let n = s.len();
    if i >= n {
        return None;
    }
    let neg = s[i] == '-';
    let start = if neg {
        i + 1
    } else {
        i
    };
    let mut j = start;
    let mut acc: u64 = 0;
    proof {
        assert(s@.subrange(start as int, start as int) =~= Seq::<char>::empty());
    }
    while j < n && is_digit_char(s[j])
        invariant
            start <= j <= n,
            n == s@.len(),
            forall|t: int| start <= t < j ==> spec_is_digit(#[trigger] s@[t]),
            ({
                let val = spec_digits_val(s@.subrange(start as int, j as int));
                (val <= 0x8000_0000 && acc == val) || (val > 0x8000_0000 && acc == 0x8000_0001)
            }),
        decreases n - j,
    {
        let c = s[j];
        let d = ((c as u32) - 48) as u64;
        let t = acc * 10 + d;
        acc = if t > 0x8000_0001 {
            0x8000_0001
        } else {
            t
        };
        j = j + 1;
        proof {
            let pre = s@.subrange(start as int, j - 1);
            let now = s@.subrange(start as int, j as int);
            assert(now.drop_last() =~= pre);
            assert(now.last() == s@[j - 1]);
            lemma_digits_val_nonneg(pre);
        }
    }
    proof {
        lemma_digit_run_exact(s@, start as int, j - start);
        lemma_digits_val_nonneg(s@.subrange(start as int, j as int));
    }
    if j == start {
        return None;
    }
    if neg {
        if acc > 0x8000_0000 {
            None
        } else {
            let k = (-(acc as i64)) as i32;
            Some((k, j))
        }
    } else {
        if acc > 0x7FFF_FFFF {
            None
        } else {
            Some((acc as i32, j))
        }
    }
}

fn parse_string_at(s: &Vec<char>, i: usize) -> (r: Option<(Vec<char>, usize)>)
    ensures
        (match spec_parse_string_body(s@, i as int) {
            None => r is None,
            Some(vj) => r matches Some(x) && x.0@ == vj.0 && x.1 as int == vj.1,
        }),
    decreases s@.len() - i,
{
    let n = s.len();
    if i >= n {
        return None;
    }
    let c = s[i];
    if c == '"' {
        Some((Vec::new(), i + 1))
    } else if c == '\\' {
        if i + 1 < n {
            let d = s[i + 1];
            if d == '"' || d == '\\' {
                match parse_string_at(s, i + 2) {
                    None => None,
                    Some((mut v, j)) => {
                        v.insert(0, d);
                        proof {
                            let tail = spec_parse_string_body(s@, i + 2)->Some_0.0;
                            assert(v@ =~= seq![s@[i + 1]] + tail);
                        }
                        Some((v, j))
                    },
                }
            } else {
                None
            }
        } else {
            None
        }
    } else {
        match parse_string_at(s, i + 1) {
            None => None,
            Some((mut v, j)) => {
                v.insert(0, c);
                proof {
                    let tail = spec_parse_string_body(s@, i + 1)->Some_0.0;
                    assert(v@ =~= seq![s@[i as int]] + tail);
                }
                Some((v, j))
            },
        }
    }
}

fn parse_entry_at(s: &Vec<char>, i: usize) -> (r: Option<((i32, Vec<char>), usize)>)
    ensures
        (match spec_parse_entry(s@, i as int) {
            None => r is None,
            Some(kvj) => r matches Some(x) && x.0.0 as int == kvj.0.0 && x.0.1@ == kvj.0.1
                && x.1 as int == kvj.1,
        }),
{
    let n = s.len();
    if i < n && s[i] == '"' {
        match parse_int_at(s, i + 1) {
            None => None,
            Some((k, j)) => {
                if j < n && s[j] == '"' && j + 1 < n && s[j + 1] == ':' && j + 2 < n && s[j + 2]
                    == '"' {
                    match parse_string_at(s, j + 3) {
                        None => None,
                        Some((v, m)) => Some(((k, v), m)),
                    }
                } else {
                    None
                }
            },
        }
    } else {
        None
    }
}

/// The entry view of a parsed entry list still holding character
/// vectors.
pub open spec fn spec_parsed_view(v: Seq<(i32, Vec<char>)>) -> Seq<(int, Seq<char>)> {
    v.map_values(|e: (i32, Vec<char>)| (e.0 as int, e.1@))
}

fn parse_entries_at(s: &Vec<char>, i: usize) -> (r: Option<(Vec<(i32, Vec<char>)>, usize)>)
    ensures
        (match spec_parse_entries(s@, i as int) {
            None => r is None,
            Some(ej) => r matches Some(x) && spec_parsed_view(x.0@) == ej.0 && x.1 as int
                == ej.1,
        }),
    decreases s@.len() - i,
{
    match parse_entry_at(s, i) {
        None => None,
        Some(((k, v), j)) => {
            if j < s.len() && s[j] == ',' {
                if i <= j {
                    match parse_entries_at(s, j + 1) {
                        None => None,
                        Some((mut es, m)) => {
                            es.insert(0, (k, v));
                            proof {
                                let spec_rest = spec_parse_entries(s@, j + 1)->Some_0.0;
                                let kv = spec_parse_entry(s@, i as int)->Some_0.0;
                                assert(spec_parsed_view(es@) =~= seq![kv] + spec_rest);
                            }
                            Some((es, m))
                        },
                    }
                } else {
                    None
                }
            } else {
                let mut single: Vec<(i32, Vec<char>)> = Vec::new();
                single.push((k, v));
                proof {
                    let kv = spec_parse_entry(s@, i as int)->Some_0.0;
                    assert(spec_parsed_view(single@) =~= seq![kv]);
                }
                Some((single, j))
            }
        },
    }
}

fn parse_object_chars(s: &Vec<char>) -> (r: Option<Vec<(i32, Vec<char>)>>)
    ensures
        (match spec_parse_object(s@) {
            None => r is None,
            Some(es) => r matches Some(x) && spec_parsed_view(x@) == es,
        }),
{
    let n = s.len();
    if n >= 1 && s[0] == '{' {
        if n == 2 && s[1] == '}' {
            let empty: Vec<(i32, Vec<char>)> = Vec::new();
            proof {
                assert(spec_parsed_view(empty@) =~= Seq::<(int, Seq<char>)>::empty());
            }
            Some(empty)
        } else {
            match parse_entries_at(s, 1) {
                None => None,
                Some((es, j)) => {
                    if j < n && j + 1 == n && s[j] == '}' {
                        Some(es)
                    } else {
                        None
                    }
                },
            }
        }
    } else {
        None
    }
}

/// Parses a table text into its entry list, in file order; nothing
/// when the text is not a well-formed table.
pub fn parse_table(s: &str) -> (r: Option<Vec<(i32, String)>>)
    ensures
        (match spec_parse_object(s@) {
            None => r is None,
            Some(es) => r matches Some(v) && spec_entries_view(v@) == es,
        }),
{
    let chars = str_chars(s);
    match parse_object_chars(&chars) {
        None => None,
        Some(parsed) => {
            let mut out: Vec<(i32, String)> = Vec::new();
            let n = parsed.len();
            let mut i: usize = 0;
            while i < n
                invariant
                    i <= n,
                    n == parsed@.len(),
                    spec_entries_view(out@) =~= spec_parsed_view(parsed@.subrange(0, i as int)),
                decreases n - i,
            {
                let entry = &parsed[i];
                let name = string_of_chars(&entry.1);
                let ghost prev_out = out@;
                out.push((entry.0, name));
                i = i + 1;
                proof {
                    let pre = parsed@.subrange(0, i - 1 as int);
                    let now = parsed@.subrange(0, i as int);
                    assert(now =~= pre.push(parsed@[i - 1]));
                    assert(spec_entries_view(prev_out) == spec_parsed_view(pre));
                    assert(spec_entries_view(prev_out).len() == prev_out.len());
                    assert(spec_parsed_view(pre).len() == pre.len());
                    assert(prev_out.len() == i - 1);
                    assert(out@.len() == now.len());
                    assert forall|t: int|
                        0 <= t < out@.len() implies spec_entries_view(out@)[t]
                        == spec_parsed_view(now)[t] by {
                        if t < prev_out.len() {
                            assert(out@[t] == prev_out[t]);
                            assert(spec_entries_view(prev_out)[t] == spec_parsed_view(pre)[t]);
                            assert(now[t] == pre[t]);
                        } else {
                            assert(out@[t] == (parsed@[i - 1].0, name));
                            assert(name@ == parsed@[i - 1].1@);
                            assert(now[t] == parsed@[i - 1]);
                        }
                    }
                    assert(spec_entries_view(out@) =~= spec_parsed_view(now));
                }
            }
            proof {
                assert(parsed@.subrange(0, n as int) =~= parsed@);
            }
            Some(out)
        },
    }
}

// ---------------------------------------------------------------------------
// The round trip
// ---------------------------------------------------------------------------

proof fn lemma_digit_char_val(d: int)
    requires
        0 <= d < 10,
    ensures
        spec_is_digit(spec_digit(d)),
        spec_digit_val(spec_digit(d)) == d,
{
}

proof fn lemma_dec_nat_digits(n: nat)
    ensures
        forall|t: int|
            0 <= t < spec_dec_nat(n).len() ==> spec_is_digit(#[trigger] spec_dec_nat(n)[t]),
    decreases n,
{
    if n < 10 {
        lemma_digit_char_val(n as int);
        assert(spec_dec_nat(n)[0] == spec_digit(n as int));
    } else {
        lemma_dec_nat_digits(n / 10);
        lemma_digit_char_val((n % 10) as int);
        let pre = spec_dec_nat(n / 10);
        assert forall|t: int| 0 <= t < spec_dec_nat(n).len() implies spec_is_digit(
            #[trigger] spec_dec_nat(n)[t],
        ) by {
            if t < pre.len() {
                assert(spec_dec_nat(n)[t] == pre[t]);
            } else {
                assert(spec_dec_nat(n)[t] == spec_digit((n % 10) as int));
            }
        }
    }
}

proof fn lemma_digits_val_dec(n: nat)
    ensures
        spec_digits_val(spec_dec_nat(n)) == n,
    decreases n,
{
    if n < 10 {
        lemma_digit_char_val(n as int);
        assert(spec_dec_nat(n).drop_last() =~= Seq::<char>::empty());
        assert(spec_digits_val(Seq::<char>::empty()) == 0);
        assert(spec_dec_nat(n).last() == spec_digit(n as int));
    } else {
        lemma_digits_val_dec(n / 10);
        lemma_digit_char_val((n % 10) as int);
        assert(spec_dec_nat(n).drop_last() =~= spec_dec_nat(n / 10));
        assert(spec_dec_nat(n).last() == spec_digit((n % 10) as int));
        vstd::arithmetic::div_mod::lemma_fundamental_div_mod(n as int, 10);
    }
}

proof fn lemma_window(s: Seq<char>, i: int, d: Seq<char>, a: int, b: int)
    requires
        0 <= i,
        i + d.len() <= s.len(),
        s.subrange(i, i + d.len() as int) == d,
        0 <= a <= b <= d.len(),
    ensures
        s.subrange(i + a, i + b) == d.subrange(a, b),
{
    assert forall|t: int| 0 <= t < b - a implies s.subrange(i + a, i + b)[t] == d.subrange(
        a,
        b,
    )[t] by {
        assert(s.subrange(i, i + d.len() as int)[a + t] == d[a + t]);
    }
    assert(s.subrange(i + a, i + b) =~= d.subrange(a, b));
}

proof fn lemma_parse_nat_of_dec(n: nat, s: Seq<char>, i: int)
    requires
        0 <= i,
        i + spec_dec_nat(n).len() <= s.len(),
        s.subrange(i, i + spec_dec_nat(n).len() as int) == spec_dec_nat(n),
        i + spec_dec_nat(n).len() == s.len() || !spec_is_digit(s[i + spec_dec_nat(n).len()]),
    ensures
        spec_parse_nat(s, i) == Some((n as int, i + spec_dec_nat(n).len() as int)),
{
    let ds = spec_dec_nat(n);
    let k = ds.len() as int;
    lemma_dec_nat_digits(n);
    assert forall|t: int| i <= t < i + k implies spec_is_digit(#[trigger] s[t]) by {
        assert(s[t] == s.subrange(i, i + k)[t - i]);
    }
    lemma_digit_run_exact(s, i, k);
    lemma_digits_val_dec(n);
}

proof fn lemma_parse_int_of_dec(k: int, s: Seq<char>, i: int)
    requires
        -0x8000_0000 <= k <= 0x7FFF_FFFF,
        0 <= i,
        i + spec_dec_int(k).len() <= s.len(),
        s.subrange(i, i + spec_dec_int(k).len() as int) == spec_dec_int(k),
        i + spec_dec_int(k).len() == s.len() || !spec_is_digit(s[i + spec_dec_int(k).len()]),
    ensures
        spec_parse_int(s, i) == Some((k, i + spec_dec_int(k).len() as int)),
{
    let d = spec_dec_int(k);
    let l = d.len() as int;
    if k >= 0 {
        assert(d == spec_dec_nat(k as nat));
        lemma_dec_nat_digits(k as nat);
        assert(s[i] == s.subrange(i, i + l)[0]);
        assert(spec_is_digit(s[i]));
        assert(s[i] != '-');
        lemma_parse_nat_of_dec(k as nat, s, i);
    } else {
        let m = (-k) as nat;
        assert(d == seq!['-'] + spec_dec_nat(m));
        assert(s[i] == s.subrange(i, i + l)[0]);
        assert(s[i] == '-');
        lemma_window(s, i, d, 1, l);
        assert(d.subrange(1, l) =~= spec_dec_nat(m));
        lemma_parse_nat_of_dec(m, s, i + 1);
    }
}

proof fn lemma_parse_string_of_escape(v: Seq<char>, s: Seq<char>, i: int)
    requires
        0 <= i,
        i + spec_escape(v).len() + 1 <= s.len(),
        s.subrange(i, i + spec_escape(v).len() as int) == spec_escape(v),
        s[i + spec_escape(v).len()] == '"',
    ensures
        spec_parse_string_body(s, i) == Some((v, i + spec_escape(v).len() + 1)),
    decreases v.len(),
{
    let e = spec_escape(v);
    let l = e.len() as int;
    if v.len() == 0 {
        assert(l == 0);
        assert(s[i] == '"');
    } else {
        let c = v[0];
        let rest = spec_escape(v.drop_first());
        assert(e == spec_escape_char(c) + rest);
        if c == '"' || c == '\\' {
            assert(e[0] == '\\');
            assert(e[1] == c);
            assert(s[i] == s.subrange(i, i + l)[0]);
            assert(s[i + 1] == s.subrange(i, i + l)[1]);
            assert(s[i] == '\\');
            assert(s[i + 1] == c);
            lemma_window(s, i, e, 2, l);
            assert(e.subrange(2, l) =~= rest);
            lemma_parse_string_of_escape(v.drop_first(), s, i + 2);
            assert(seq![v[0]] + v.drop_first() =~= v);
        } else {
            assert(e[0] == c);
            assert(s[i] == s.subrange(i, i + l)[0]);
            assert(s[i] == c);
            lemma_window(s, i, e, 1, l);
            assert(e.subrange(1, l) =~= rest);
            lemma_parse_string_of_escape(v.drop_first(), s, i + 1);
            assert(seq![v[0]] + v.drop_first() =~= v);
        }
    }
}

proof fn lemma_parse_entry_of_emit(k: int, v: Seq<char>, s: Seq<char>, i: int)
    requires
        -0x8000_0000 <= k <= 0x7FFF_FFFF,
        0 <= i,
        i + spec_entry(k, v).len() <= s.len(),
        s.subrange(i, i + spec_entry(k, v).len() as int) == spec_entry(k, v),
    ensures
        spec_parse_entry(s, i) == Some(((k, v), i + spec_entry(k, v).len() as int)),
{
    let d = spec_dec_int(k);
    let dl = d.len() as int;
    let e = spec_escape(v);
    let el = e.len() as int;
    let ent = spec_entry(k, v);
    let l = ent.len() as int;
    assert(l == dl + el + 5);
    assert(s[i] == s.subrange(i, i + l)[0]);
    assert(s[i] == '"');
    lemma_window(s, i, ent, 1, 1 + dl);
    assert(ent.subrange(1, 1 + dl) =~= d);
    assert(s[i + 1 + dl] == s.subrange(i, i + l)[1 + dl]);
    assert(s[i + 1 + dl] == '"');
    assert(s[i + 2 + dl] == s.subrange(i, i + l)[2 + dl]);
    assert(s[i + 2 + dl] == ':');
    assert(s[i + 3 + dl] == s.subrange(i, i + l)[3 + dl]);
    assert(s[i + 3 + dl] == '"');
    lemma_window(s, i, ent, 4 + dl, 4 + dl + el);
    assert(ent.subrange(4 + dl, 4 + dl + el) =~= e);
    assert(s[i + 4 + dl + el] == s.subrange(i, i + l)[4 + dl + el]);
    assert(s[i + 4 + dl + el] == '"');
    assert(!spec_is_digit('"'));
    lemma_parse_int_of_dec(k, s, i + 1);
    lemma_parse_string_of_escape(v, s, i + 4 + dl);
}

proof fn lemma_parse_entries_of_emit(es: Seq<(int, Seq<char>)>, s: Seq<char>, i: int)
    requires
        es.len() > 0,
        forall|p: int| 0 <= p < es.len() ==> -0x8000_0000 <= (#[trigger] es[p]).0 <= 0x7FFF_FFFF,
        0 <= i,
        i + spec_entries(es).len() <= s.len(),
        s.subrange(i, i + spec_entries(es).len() as int) == spec_entries(es),
        i + spec_entries(es).len() == s.len() || s[i + spec_entries(es).len()] != ',',
    ensures
        spec_parse_entries(s, i) == Some((es, i + spec_entries(es).len() as int)),
    decreases es.len(),
{
    let all = spec_entries(es);
    let l = all.len() as int;
    if es.len() == 1 {
        assert(all == spec_entry(es[0].0, es[0].1));
        lemma_parse_entry_of_emit(es[0].0, es[0].1, s, i);
        assert(seq![es[0]] =~= es);
    } else {
        let e1 = spec_entry(es[0].0, es[0].1);
        let l1 = e1.len() as int;
        assert(all == e1 + seq![','] + spec_entries(es.drop_first()));
        lemma_window(s, i, all, 0, l1);
        assert(all.subrange(0, l1) =~= e1);
        assert(s.subrange(i, i + l1) == e1);
        lemma_parse_entry_of_emit(es[0].0, es[0].1, s, i);
        assert(s[i + l1] == s.subrange(i, i + l)[l1]);
        assert(s[i + l1] == ',');
        lemma_window(s, i, all, l1 + 1, l);
        assert(all.subrange(l1 + 1, l) =~= spec_entries(es.drop_first()));
        lemma_parse_entries_of_emit(es.drop_first(), s, i + l1 + 1);
        assert(seq![es[0]] + es.drop_first() =~= es);
    }
}

/// The round-trip law of the on-disk table format: parsing an emitted
/// table yields exactly the emitted entries, so persisted reference
/// data loads back unchanged and persisting it again denotes the same
/// table.
pub proof fn lemma_storage_round_trip(es: Seq<(int, Seq<char>)>)
    requires
        forall|p: int| 0 <= p < es.len() ==> -0x8000_0000 <= (#[trigger] es[p]).0 <= 0x7FFF_FFFF,
    ensures
        spec_parse_object(spec_emit(es)) == Some(es),
{
    let s = spec_emit(es);
    let all = spec_entries(es);
    let l = all.len() as int;
    assert(s.len() == l + 2);
    assert(s[0] == '{');
    if es.len() == 0 {
        assert(s[1] == '}');
        assert(Seq::<(int, Seq<char>)>::empty() =~= es);
    } else {
        let e1 = spec_entry(es[0].0, es[0].1);
        assert(all[0] == e1[0]);
        assert(s[1] == '"');
        assert(!(s.len() == 2 && s[1] == '}'));
        assert(s.subrange(1, 1 + l) =~= all);
        assert(s[1 + l] == '}');
        lemma_parse_entries_of_emit(es, s, 1);
    }
}

} // verus!
