//! Names of the files that a save writes: one per image, told apart by the
//! image's position in the response.

use vstd::prelude::*;
use vstd::string::StringExecFns;

verus! {

/// The decimal digit for `d`, for `d` below ten.
pub open spec fn digit_char(d: nat) -> char {
    if d == 0 {
        '0'
    } else if d == 1 {
        '1'
    } else if d == 2 {
        '2'
    } else if d == 3 {
        '3'
    } else if d == 4 {
        '4'
    } else if d == 5 {
        '5'
    } else if d == 6 {
        '6'
    } else if d == 7 {
        '7'
    } else if d == 8 {
        '8'
    } else {
        '9'
    }
}

/// `n` written in decimal, most significant digit first, without leading zeros.
pub open spec fn decimal(n: nat) -> Seq<char>
    decreases n,
{
    if n < 10 {
        seq![digit_char(n)]
    } else {
        decimal(n / 10).push(digit_char(n % 10))
    }
}

/// The extension of every written image file.
pub open spec fn image_extension() -> Seq<char> {
    seq!['.', 'p', 'n', 'g']
}

/// The name of the file for the image at position `index` of a save whose
/// names all begin with `tag`: `<tag>-<index>.png`.
pub open spec fn image_file_name(tag: Seq<char>, index: nat) -> Seq<char> {
    tag + seq!['-'] + decimal(index) + image_extension()
}

proof fn lemma_decimal_len(n: nat)
    ensures
        decimal(n).len() >= 1,
        n >= 10 ==> decimal(n).len() >= 2,
    decreases n,
{
    if n >= 10 {
        lemma_decimal_len(n / 10);
    }
}

/// Two numbers with the same decimal text are equal.
pub proof fn lemma_decimal_injective(a: nat, b: nat)
    requires
        decimal(a) == decimal(b),
    ensures
        a == b,
    decreases a,
{
    lemma_decimal_len(a);
    lemma_decimal_len(b);
    if a >= 10 && b >= 10 {
        assert(decimal(a) == decimal(a / 10).push(digit_char(a % 10)));
        assert(decimal(b) == decimal(b / 10).push(digit_char(b % 10)));
        assert(decimal(a / 10) =~= decimal(a).drop_last());
        assert(decimal(b / 10) =~= decimal(b).drop_last());
        assert(decimal(a).last() == digit_char(a % 10));
        assert(decimal(b).last() == digit_char(b % 10));
        lemma_decimal_injective(a / 10, b / 10);
        assert(a % 10 == b % 10);
        assert(a == 10 * (a / 10) + a % 10);
        assert(b == 10 * (b / 10) + b % 10);
    } else if a < 10 && b < 10 {
        assert(decimal(a) == seq![digit_char(a)]);
        assert(decimal(b) == seq![digit_char(b)]);
        assert(decimal(a)[0] == digit_char(a));
        assert(decimal(b)[0] == digit_char(b));
    } else {
        assert(decimal(a).len() != decimal(b).len());
    }
}

/// Files of one save at two different positions have different names, so no
/// two images of one save are written to the same path.
pub proof fn lemma_image_file_names_distinct(tag: Seq<char>, i: nat, j: nat)
    requires
        i != j,
    ensures
        image_file_name(tag, i) != image_file_name(tag, j),
{
    if image_file_name(tag, i) == image_file_name(tag, j) {
        let di = decimal(i);
        let dj = decimal(j);
        let start: int = tag.len() as int + 1;
        assert(image_file_name(tag, i).len() == start + di.len() + 4);
        assert(image_file_name(tag, j).len() == start + dj.len() + 4);
        assert(image_file_name(tag, i).subrange(start, start + di.len() as int) =~= di);
        assert(image_file_name(tag, j).subrange(start, start + dj.len() as int) =~= dj);
        lemma_decimal_injective(i, j);
    }
}

fn digit_str(d: usize) -> (r: &'static str)
    requires
        d < 10,
    ensures
        r@ == seq![digit_char(d as nat)],
{
    proof {
        reveal_strlit("0");
        reveal_strlit("1");
        reveal_strlit("2");
        reveal_strlit("3");
        reveal_strlit("4");
        reveal_strlit("5");
        reveal_strlit("6");
        reveal_strlit("7");
        reveal_strlit("8");
        reveal_strlit("9");
    }
    match d {
        0 => "0",
        1 => "1",
        2 => "2",
        3 => "3",
        4 => "4",
        5 => "5",
        6 => "6",
        7 => "7",
        8 => "8",
        _ => "9",
    }
}

/// `n` written in decimal.
pub fn decimal_text(n: usize) -> (r: String)
    ensures
        r@ == decimal(n as nat),
    decreases n,
{
    if n < 10 {
        String::from_str(digit_str(n))
    } else {
        let mut text = decimal_text(n / 10);
        text.append(digit_str(n % 10));
        text
    }
}

/// The name of the file for the image at position `index` of a save whose
/// names all begin with `tag`.
pub fn image_file_name_text(tag: &str, index: usize) -> (r: String)
    ensures
        r@ == image_file_name(tag@, index as nat),
{
    proof {
        reveal_strlit("-");
        reveal_strlit(".png");
    }
    let mut name = String::from_str(tag);
    name.append("-");
    let digits = decimal_text(index);
    name.append(digits.as_str());
    name.append(".png");
    assert(name@ =~= image_file_name(tag@, index as nat));
    name
}

} // verus!
