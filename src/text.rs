//! The text side channel: a page's text under a banner that names the page.
use vstd::prelude::*;

verus! {

/// The decimal digit for `d < 10`.
pub open spec fn digit_char(d: nat) -> char {
    seq!['0', '1', '2', '3', '4', '5', '6', '7', '8', '9'][d as int]
}

/// `n` written in decimal, without leading zeros.
pub open spec fn decimal(n: nat) -> Seq<char>
    decreases n,
{
    if n < 10 {
        seq![digit_char(n)]
    } else {
        decimal(n / 10).push(digit_char(n % 10))
    }
}

/// The banner line that stands above the text of page `page_num`.
pub open spec fn page_banner(page_num: nat) -> Seq<char> {
    "=============== Page "@ + decimal(page_num) + " ==============="@
}

/// The diagnostic for page `page_num` whose text is `text`: the banner, a line
/// break, the text, a line break.
pub open spec fn page_diagnostic_spec(page_num: nat, text: Seq<char>) -> Seq<char> {
    page_banner(page_num) + "\n"@ + text + "\n"@
}

/// The text of a page from what reading its text layer gave: the text where
/// there is a layer, else the empty string.
pub fn text_or_empty(layer: Option<String>) -> (r: String)
    ensures
        layer matches Some(t) ==> r@ == t@,
        layer is None ==> r@ == Seq::<char>::empty(),
{
    match layer {
        Some(text) => text,
        None => String::new(),
    }
}

/// Appends `n` in decimal to `s`.
fn append_decimal(s: &mut String, n: usize)
    ensures
        final(s)@ == old(s)@ + decimal(n as nat),
    decreases n,
{
    if n >= 10 {
        append_decimal(s, n / 10);
    }
    let d = n % 10;
    let digit: &str = if d == 0 {
        "0"
    } else if d == 1 {
        "1"
    } else if d == 2 {
        "2"
    } else if d == 3 {
        "3"
    } else if d == 4 {
        "4"
    } else if d == 5 {
        "5"
    } else if d == 6 {
        "6"
    } else if d == 7 {
        "7"
    } else if d == 8 {
        "8"
    } else {
        "9"
    };
    proof {
        reveal_strlit("0");
        reveal_strlit("1");
        reveal_strlit("2");
        reveal_strlit("3");
        reveal_strlit("4");
        reveal_strlit("5");
        reveal_strlit("6");
        reveal_strlit("7");
        reveal_strlit("8");
        reveal_strlit("9");
        assert(digit@ =~= seq![digit_char(d as nat)]);
    }
    s.append(digit);
    proof {
        if n >= 10 {
            assert(decimal(n as nat) =~= decimal((n / 10) as nat) + seq![digit_char(d as nat)]);
        } else {
            assert(decimal(n as nat) =~= seq![digit_char(d as nat)]);
        }
    }
}

/// The diagnostic for page `page_num`, from what reading its text layer gave:
/// the page banner, then the text, or nothing where the page has no layer.
pub fn page_diagnostic(page_num: usize, layer: Option<String>) -> (r: String)
    ensures
        layer matches Some(t) ==> r@ == page_diagnostic_spec(page_num as nat, t@),
        layer is None ==> r@ == page_diagnostic_spec(page_num as nat, Seq::empty()),
{
    let text = text_or_empty(layer);
    let mut out = String::from_str("=============== Page ");
    append_decimal(&mut out, page_num);
    out.append(" ===============");
    out.append("\n");
    out.append(text.as_str());
    out.append("\n");
    proof {
        reveal_strlit("=============== Page ");
        reveal_strlit(" ===============");
        reveal_strlit("\n");
        assert(out@ =~= page_diagnostic_spec(page_num as nat, text@));
    }
    out
}

} // verus!
