//! Verified text helpers: decimal rendering of integers, character-wise
//! string equality, zero padding and concatenation. Query parameters, path
//! segments and JSON bodies are built from these.

use vstd::prelude::*;

verus! {

use vstd::string::StrSliceExecFns;
use vstd::string::StringExecFns;

/// The character for a single decimal digit.
pub open spec fn digit_char(d: nat) -> char {
    if d == 0 {
        '0'
    } else if d == 1 {
        '1'
    } else if d == 2 {
        '2'
    } else if d == 3 {
        '3'
    } else if d == 4 {
        '4'
    } else if d == 5 {
        '5'
    } else if d == 6 {
        '6'
    } else if d == 7 {
        '7'
    } else if d == 8 {
        '8'
    } else {
        '9'
    }
}

/// The decimal rendering of a natural number, most significant digit first.
pub open spec fn dec_digits(n: nat) -> Seq<char>
    decreases n,
{
    if n < 10 {
        seq![digit_char(n)]
    } else {
        dec_digits(n / 10).push(digit_char(n % 10))
    }
}

/// The decimal rendering of a signed number: a minus sign before the
/// magnitude when negative.
pub open spec fn dec_digits_signed(n: int) -> Seq<char> {
    if n < 0 {
        seq!['-'] + dec_digits((-n) as nat)
    } else {
        dec_digits(n as nat)
    }
}

fn digit_str(d: u64) -> (r: &'static str)
    requires
        d < 10,
    ensures
        r@ == seq![digit_char(d as nat)],
{
    proof {
        reveal_strlit("0");
        reveal_strlit("1");
        reveal_strlit("2");
        reveal_strlit("3");
        reveal_strlit("4");
        reveal_strlit("5");
        reveal_strlit("6");
        reveal_strlit("7");
        reveal_strlit("8");
        reveal_strlit("9");
    }
    let r: &'static str = if d == 0 {
        "0"
    } else if d == 1 {
        "1"
    } else if d == 2 {
        "2"
    } else if d == 3 {
        "3"
    } else if d == 4 {
        "4"
    } else if d == 5 {
        "5"
    } else if d == 6 {
        "6"
    } else if d == 7 {
        "7"
    } else if d == 8 {
        "8"
    } else {
        "9"
    };
    proof {
        assert(r@ =~= seq![digit_char(d as nat)]);
    }
    r
}

/// Renders an unsigned number in decimal.
pub fn u64_to_string(n: u64) -> (r: String)
    ensures
        r@ == dec_digits(n as nat),
    decreases n,
{
    if n < 10 {
        digit_str(n).to_owned()
    } else {
        let mut prefix = u64_to_string(n / 10);
        prefix.append(digit_str(n % 10));
        proof {
            assert(prefix@ =~= dec_digits(n as nat));
        }
        prefix
    }
}

/// Renders a signed number in decimal, with a leading minus when negative.
pub fn i64_to_string(n: i64) -> (r: String)
    ensures
        r@ == dec_digits_signed(n as int),
{
    if n >= 0 {
        u64_to_string(n as u64)
    } else {
        // -(n + 1) stays in range even for the smallest value.
        let magnitude: u64 = (-(n + 1)) as u64 + 1;
        let mut out = "-".to_owned();
        out.append(u64_to_string(magnitude).as_str());
        proof {
            reveal_strlit("-");
            assert(out@ =~= dec_digits_signed(n as int));
        }
        out
    }
}

/// Character-wise string equality.
pub fn str_eq(a: &str, b: &str) -> (r: bool)
    ensures
        r == (a@ == b@),
{
    let len_a = a.unicode_len();
    let len_b = b.unicode_len();
    if len_a != len_b {
        proof {
            assert(a@ != b@) by {
                assert(a@.len() != b@.len());
            }
        }
        return false;
    }
    let mut i: usize = 0;
    while i < len_a
        invariant
            len_a == a@.len(),
            len_a == b@.len(),
            i <= len_a,
            forall|j: int| 0 <= j < i ==> a@[j] == b@[j],
        decreases len_a - i,
    {
        if a.get_char(i) != b.get_char(i) {
            return false;
        }
        i += 1;
    }
    proof {
        assert(a@ =~= b@);
    }
    true
}

/// The concatenation of a sequence of character sequences, in order and
/// without a separator.
pub open spec fn concat_all(items: Seq<Seq<char>>) -> Seq<char>
    decreases items.len(),
{
    if items.len() == 0 {
        Seq::empty()
    } else {
        items[0] + concat_all(items.drop_first())
    }
}

proof fn lemma_concat_all_push(items: Seq<Seq<char>>, last: Seq<char>)
    ensures
        concat_all(items.push(last)) == concat_all(items) + last,
    decreases items.len(),
{
    if items.len() == 0 {
        assert(items.push(last)[0] == last);
        assert(items.push(last).drop_first() =~= Seq::<Seq<char>>::empty());
        assert(concat_all(items.push(last)) == last + concat_all(Seq::<Seq<char>>::empty()));
        assert(last + Seq::<char>::empty() =~= last);
        assert(concat_all(items) + last =~= last);
    } else {
        assert(items.push(last).drop_first() =~= items.drop_first().push(last));
        lemma_concat_all_push(items.drop_first(), last);
        assert(items.push(last)[0] == items[0]);
        assert(items[0] + (concat_all(items.drop_first()) + last) =~= (items[0] + concat_all(
            items.drop_first(),
        )) + last);
        assert(concat_all(items.push(last)) =~= concat_all(items) + last);
    }
}

/// Concatenates the given strings without a separator.
pub fn join_all(items: &Vec<String>) -> (r: String)
    ensures
        r@ == concat_all(items.deep_view()),
{
    let mut out = String::new();
    let mut i: usize = 0;
    proof {
        assert(items.deep_view().take(0) =~= Seq::<Seq<char>>::empty());
    }
    while i < items.len()
        invariant
            i <= items.len(),
            items.deep_view().len() == items.len(),
            forall|j: int| 0 <= j < items.len() ==> items.deep_view()[j] == items[j]@,
            out@ == concat_all(items.deep_view().take(i as int)),
        decreases items.len() - i,
    {
        out.append(items[i].as_str());
        proof {
            assert(items.deep_view().take(i + 1) =~= items.deep_view().take(i as int).push(
                items[i as int]@,
            ));
            lemma_concat_all_push(items.deep_view().take(i as int), items[i as int]@);
        }
        i += 1;
    }
    proof {
        assert(items.deep_view().take(items.len() as int) =~= items.deep_view());
    }
    out
}

/// The decimal renderings of a sequence of numbers, in order and without
/// a separator.
pub open spec fn concat_decimals(items: Seq<u32>) -> Seq<char> {
    concat_all(Seq::new(items.len(), |i: int| dec_digits(items[i] as nat)))
}

/// Concatenates the decimal renderings of the given numbers without a
/// separator.
pub fn join_decimals(items: &Vec<u32>) -> (r: String)
    ensures
        r@ == concat_decimals(items@),
{
    let mut out = String::new();
    let mut i: usize = 0;
    proof {
        assert(Seq::new(items@.take(0).len(), |j: int| dec_digits(items@.take(0)[j] as nat))
            =~= Seq::<Seq<char>>::empty());
    }
    while i < items.len()
        invariant
            i <= items.len(),
            out@ == concat_decimals(items@.take(i as int)),
        decreases items.len() - i,
    {
        out.append(u64_to_string(items[i] as u64).as_str());
        proof {
            let prefix = Seq::new(items@.take(i as int).len(), |j: int| dec_digits(
                items@.take(i as int)[j] as nat,
            ));
            let extended = Seq::new(items@.take(i + 1).len(), |j: int| dec_digits(
                items@.take(i + 1)[j] as nat,
            ));
            assert(extended =~= prefix.push(dec_digits(items@[i as int] as nat)));
            lemma_concat_all_push(prefix, dec_digits(items@[i as int] as nat));
            assert(out@ =~= concat_decimals(items@.take(i + 1)));
        }
        i += 1;
    }
    proof {
        assert(items@.take(items@.len() as int) =~= items@);
    }
    out
}

/// The string left-padded with zeros up to the given width.
pub open spec fn zero_padded(s: Seq<char>, width: nat) -> Seq<char> {
    if s.len() >= width {
        s
    } else {
        Seq::new((width - s.len()) as nat, |i: int| '0') + s
    }
}

/// Left-pads the decimal rendering of `n` with zeros up to `width`.
pub fn u64_to_padded_string(n: u64, width: usize) -> (r: String)
    ensures
        r@ == zero_padded(dec_digits(n as nat), width as nat),
{
    let digits = u64_to_string(n);
    let len = digits.as_str().unicode_len();
    if len >= width {
        return digits;
    }
    let mut out = String::new();
    let mut k: usize = 0;
    while k < width - len
        invariant
            len < width,
            out@ =~= Seq::new(k as nat, |i: int| '0'),
            k <= width - len,
        decreases width - len - k,
    {
        out.append("0");
        proof {
            reveal_strlit("0");
            assert(out@ =~= Seq::new((k + 1) as nat, |i: int| '0'));
        }
        k += 1;
    }
    out.append(digits.as_str());
    proof {
        assert(out@ =~= zero_padded(dec_digits(n as nat), width as nat));
    }
    out
}

} // verus!
