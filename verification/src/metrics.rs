//! The catalog gauge: the number of products, rendered in the text
//! exposition format that pull-based monitoring reads.

use vstd::prelude::*;
use vstd::string::StringExecFns;

verus! {

/// The character of one decimal digit.
pub open spec fn digit_char(d: nat) -> char
    recommends
        d < 10,
{
    if d == 0 {
        '0'
    } else if d == 1 {
        '1'
    } else if d == 2 {
        '2'
    } else if d == 3 {
        '3'
    } else if d == 4 {
        '4'
    } else if d == 5 {
        '5'
    } else if d == 6 {
        '6'
    } else if d == 7 {
        '7'
    } else if d == 8 {
        '8'
    } else {
        '9'
    }
}

/// The decimal numeral of `n`: most significant digit first, no sign, no
/// leading zero, and `"0"` for zero.
pub open spec fn decimal(n: nat) -> Seq<char>
    decreases n,
{
    if n < 10 {
        seq![digit_char(n)]
    } else {
        decimal(n / 10).push(digit_char(n % 10))
    }
}

/// The two comment lines that introduce the gauge, and the start of its sample line.
pub open spec fn gauge_preamble() -> Seq<char> {
    "# HELP total_product_count The total number of products in the database\n# TYPE total_product_count gauge\ntotal_product_count "@
}

/// The exposition of the gauge for a catalog of `count` products.
pub open spec fn gauge_text(count: nat) -> Seq<char> {
    gauge_preamble() + decimal(count) + seq!['\n']
}

/// The text of one decimal digit.
fn digit_text(d: usize) -> (text: &'static str)
    requires
        d < 10,
    ensures
        text@ == seq![digit_char(d as nat)],
{
    proof {
        reveal_strlit("0");
        reveal_strlit("1");
        reveal_strlit("2");
        reveal_strlit("3");
        reveal_strlit("4");
        reveal_strlit("5");
        reveal_strlit("6");
        reveal_strlit("7");
        reveal_strlit("8");
        reveal_strlit("9");
    }
    let text = if d == 0 {
        "0"
    } else if d == 1 {
        "1"
    } else if d == 2 {
        "2"
    } else if d == 3 {
        "3"
    } else if d == 4 {
        "4"
    } else if d == 5 {
        "5"
    } else if d == 6 {
        "6"
    } else if d == 7 {
        "7"
    } else if d == 8 {
        "8"
    } else {
        "9"
    };
    assert(text@ =~= seq![digit_char(d as nat)]);
    text
}

/// Appends the decimal numeral of `n` to `out`.
pub fn push_decimal(n: usize, out: &mut String)
    ensures
        final(out)@ == old(out)@ + decimal(n as nat),
    decreases n,
{
    if n >= 10 {
        push_decimal(n / 10, out);
    }
    out.append(digit_text(n % 10));
    assert(old(out)@ + decimal(n as nat) =~= if n >= 10 {
        (old(out)@ + decimal((n / 10) as nat)) + seq![digit_char((n % 10) as nat)]
    } else {
        old(out)@ + seq![digit_char((n % 10) as nat)]
    });
}

/// Renders the gauge for a catalog of `count` products.
pub fn render_gauge(count: usize) -> (text: String)
    ensures
        text@ == gauge_text(count as nat),
{
    let mut text =
        "# HELP total_product_count The total number of products in the database\n# TYPE total_product_count gauge\ntotal_product_count ".to_string();
    push_decimal(count, &mut text);
    proof {
        reveal_strlit("\n");
        assert("\n"@ =~= seq!['\n']);
    }
    text.append("\n");
    text
}

} // verus!
