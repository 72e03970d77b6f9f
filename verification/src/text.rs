use vstd::prelude::*;

verus! {

/// The uppercase form of a character: an ASCII lowercase letter is mapped
/// to the corresponding capital letter, every other character is left as
/// it is.
pub open spec fn upper_char(c: char) -> char {
    if 'a' <= c && c <= 'z' {
        (((c as u32) - 32) as u8) as char
    } else {
        c
    }
}

/// A string with its first character uppercased, when that character is an
/// ASCII lowercase letter; the empty string stays empty, and a string whose
/// first character is anything else stays unchanged.
pub open spec fn upper_first(s: Seq<char>) -> Seq<char> {
    if s.len() == 0 {
        s
    } else {
        seq![upper_char(s[0])] + s.drop_first()
    }
}

/// Every name of the sequence with its first character uppercased.
pub open spec fn upper_first_all(names: Seq<Seq<char>>) -> Seq<Seq<char>> {
    names.map_values(|s: Seq<char>| upper_first(s))
}

/// The decimal digit character for a value below ten.
pub open spec fn digit_char(d: nat) -> char
    recommends
        d < 10,
{
    ((48 + d) as u8) as char
}

/// The decimal representation of a natural number, most significant digit
/// first, with no leading zeros (zero itself is the single digit `0`).
pub open spec fn dec_digits(n: nat) -> Seq<char>
    decreases n,
{
    if n < 10 {
        seq![digit_char(n)]
    } else {
        dec_digits(n / 10) + seq![digit_char(n % 10)]
    }
}

/// A string right-aligned in a field of width three: a shorter value gets
/// leading spaces, a longer one is kept whole.
pub open spec fn padded3(s: Seq<char>) -> Seq<char> {
    if s.len() >= 3 {
        s
    } else if s.len() == 2 {
        seq![' '] + s
    } else if s.len() == 1 {
        seq![' ', ' '] + s
    } else {
        seq![' ', ' ', ' ']
    }
}

/// The elements joined with the separator between consecutive elements;
/// no separator leads or trails, and no elements give the empty string.
pub open spec fn join_sep(items: Seq<Seq<char>>, sep: Seq<char>) -> Seq<char>
    decreases items.len(),
{
    if items.len() == 0 {
        Seq::empty()
    } else if items.len() == 1 {
        items[0]
    } else {
        join_sep(items.drop_last(), sep) + sep + items.last()
    }
}

/// Relies on String::push: appends one character at the end of the string.
#[verifier::external_body]
fn push_char(s: &mut String, c: char)
    ensures
        final(s)@ == old(s)@.push(c),
{
    s.push(c);
}

/// Uppercase an ASCII lowercase letter; leave every other character alone.
fn uppercase_char(c: char) -> (r: char)
    ensures
        r == upper_char(c),
{
    let u: u32 = c as u32;
    if 97 <= u && u <= 122 {
        ((u - 32) as u8) as char
    } else {
        c
    }
}

/// Uppercase the first character of the string, when it is an ASCII
/// lowercase letter; every other string comes back unchanged.
pub fn make_ascii_titlecase(st: &str) -> (r: String)
    ensures
        r@ == upper_first(st@),
{
    let n = st.unicode_len();
    if n == 0 {
        st.to_owned()
    } else {
        let first = st.get_char(0);
        let rest = st.substring_char(1, n);
        let mut out = String::new();
        push_char(&mut out, uppercase_char(first));
        out.append(rest);
        proof {
            assert(out@ =~= upper_first(st@));
        }
        out
    }
}

/// Every name of the vector with its first character uppercased, in order.
pub fn titlecase_all(names: &Vec<String>) -> (r: Vec<String>)
    ensures
        r.deep_view() == upper_first_all(names.deep_view()),
{
    let mut out: Vec<String> = Vec::new();
    let mut i: usize = 0;
    while i < names.len()
        invariant
            i <= names.len(),
            out@.len() == i,
            forall|j: int|
                0 <= j < i ==> out.deep_view()[j] == upper_first(names.deep_view()[j]),
        decreases names.len() - i,
    {
        let titled = make_ascii_titlecase(names[i].as_str());
        let ghost prev = out@;
        let ghost prev_dv = out.deep_view();
        out.push(titled);
        i = i + 1;
        proof {
            assert forall|j: int| 0 <= j < i implies out.deep_view()[j] == upper_first(
                names.deep_view()[j],
            ) by {
                if j < i - 1 {
                    assert(out@[j] == prev[j]);
                    assert(prev_dv[j] == prev[j].deep_view());
                    assert(prev_dv[j] == upper_first(names.deep_view()[j]));
                } else {
                    assert(out@[j] == titled);
                    assert(names.deep_view()[j] == names@[j]@);
                }
            }
        }
    }
    proof {
        assert(out.deep_view() =~= upper_first_all(names.deep_view()));
    }
    out
}

/// The decimal text of a byte value, most significant digit first.
pub fn decimal_string(n: u8) -> (r: String)
    ensures
        r@ == dec_digits(n as nat),
{
    let mut out = String::new();
    if n < 10 {
        push_char(&mut out, digit(n));
    } else if n < 100 {
        push_char(&mut out, digit(n / 10));
        push_char(&mut out, digit(n % 10));
        proof {
            reveal_with_fuel(dec_digits, 2);
            assert(out@ =~= dec_digits(n as nat));
        }
    } else {
        let t = n / 10;
        push_char(&mut out, digit(t / 10));
        push_char(&mut out, digit(t % 10));
        push_char(&mut out, digit(n % 10));
        proof {
            reveal_with_fuel(dec_digits, 3);
            assert(out@ =~= dec_digits(n as nat));
        }
    }
    out
}

/// The decimal digit character of a value below ten.
fn digit(d: u8) -> (c: char)
    requires
        d < 10,
    ensures
        c == digit_char(d as nat),
{
    (48 + d) as char
}

/// The decimal text of a stat value, right-aligned in a field of width
/// three with leading spaces.
pub fn stat_field(n: u8) -> (r: String)
    ensures
        r@ == padded3(dec_digits(n as nat)),
{
    let digits = decimal_string(n);
    let len = digits.as_str().unicode_len();
    let mut out = String::new();
    if len == 1 {
        push_char(&mut out, ' ');
        push_char(&mut out, ' ');
    } else if len == 2 {
        push_char(&mut out, ' ');
    }
    out.append(digits.as_str());
    proof {
        assert(out@ =~= padded3(dec_digits(n as nat)));
    }
    out
}

/// The elements joined with the separator between consecutive elements.
pub fn join_with(items: &Vec<String>, sep: &str) -> (r: String)
    ensures
        r@ == join_sep(items.deep_view(), sep@),
{
    let mut out = String::new();
    let mut i: usize = 0;
    while i < items.len()
        invariant
            i <= items.len(),
            out@ == join_sep(items.deep_view().take(i as int), sep@),
        decreases items.len() - i,
    {
        if i > 0 {
            out.append(sep);
        }
        out.append(items[i].as_str());
        i = i + 1;
        proof {
            let dv = items.deep_view();
            assert(dv.take(i as int).drop_last() =~= dv.take(i as int - 1));
            assert(dv.take(i as int).last() == dv[i as int - 1]);
        }
    }
    proof {
        assert(items.deep_view().take(items@.len() as int) =~= items.deep_view());
    }
    out
}

} // verus!
