//! Where findings sit, and the text by which findings are told apart.
use vstd::prelude::*;
use vstd::string::*;

use crate::finding::VulnerabilityFinding;

verus! {

/// Whether two findings are of one type at one spot: the same location and line, and the same
/// function where the line is not known.
pub open spec fn same_spot(a: VulnerabilityFinding, b: VulnerabilityFinding) -> bool {
    &&& a.vuln_type@ == b.vuln_type@
    &&& a.location@ == b.location@
    &&& a.line_number == b.line_number
    &&& a.line_number == 0 ==> a.function_name@ == b.function_name@
}

/// The character of a decimal digit.
pub open spec fn digit(d: nat) -> char {
    ('0' as int + d) as char
}

/// A number in decimal notation, without leading zeros.
pub open spec fn decimal(n: nat) -> Seq<char>
    decreases n,
{
    if n < 10 {
        seq![digit(n)]
    } else {
        decimal(n / 10).push(digit(n % 10))
    }
}

/// A text after its length and a colon. The length tells where the text ends, whatever
/// characters it holds.
pub open spec fn framed(text: Seq<char>) -> Seq<char> {
    decimal(text.len()) + seq![':'] + text
}

/// Where in its file a finding sits: `L` and its line, or `F` and its function where the line is
/// not known.
pub open spec fn site(finding: VulnerabilityFinding) -> Seq<char> {
    if finding.line_number > 0 {
        seq!['L'] + decimal(finding.line_number as nat)
    } else {
        seq!['F'] + finding.function_name@
    }
}

/// The key of a finding: its type and its location, each with its length, and its site.
pub open spec fn key(finding: VulnerabilityFinding) -> Seq<char> {
    framed(finding.vuln_type@) + framed(finding.location@) + site(finding)
}

fn digit_text(d: usize) -> (text: &'static str)
    requires
        d < 10,
    ensures
        text@ == seq![digit(d as nat)],
{
    proof {
        reveal_strlit("0");
        reveal_strlit("1");
        reveal_strlit("2");
        reveal_strlit("3");
        reveal_strlit("4");
        reveal_strlit("5");
        reveal_strlit("6");
        reveal_strlit("7");
        reveal_strlit("8");
        reveal_strlit("9");
    }
    match d {
        0 => "0",
        1 => "1",
        2 => "2",
        3 => "3",
        4 => "4",
        5 => "5",
        6 => "6",
        7 => "7",
        8 => "8",
        _ => "9",
    }
}

/// Writes a number in decimal notation.
pub fn decimal_text(n: usize) -> (text: String)
    ensures
        text@ == decimal(n as nat),
    decreases n,
{
    if n < 10 {
        digit_text(n).to_string()
    } else {
        let mut text = decimal_text(n / 10);
        text.append(digit_text(n % 10));
        text
    }
}

/// Writes a text after its length.
fn framed_text(part: &str) -> (text: String)
    ensures
        text@ == framed(part@),
{
    proof {
        reveal_strlit(":");
    }
    let mut text = decimal_text(part.unicode_len());
    text.append(":");
    text.append(part);
    text
}

/// The key of a finding: a text that two findings share exactly where they are of one type at
/// one spot.
pub fn dedup_key(finding: &VulnerabilityFinding) -> (text: String)
    ensures
        text@ == key(*finding),
{
    proof {
        reveal_strlit("L");
        reveal_strlit("F");
    }
    let mut text = framed_text(finding.vuln_type.as_str());
    let location = framed_text(finding.location.as_str());
    text.append(location.as_str());
    if finding.line_number > 0 {
        text.append("L");
        let line = decimal_text(finding.line_number);
        text.append(line.as_str());
    } else {
        text.append("F");
        text.append(finding.function_name.as_str());
    }
    assert(text@ =~= key(*finding));
    text
}

proof fn decimal_is_not_empty(n: nat)
    ensures
        decimal(n).len() > 0,
{
}

/// Different numbers have different decimal notations.
pub proof fn decimal_is_injective(a: nat, b: nat)
    requires
        decimal(a) == decimal(b),
    ensures
        a == b,
    decreases a,
{
    decimal_is_not_empty(a / 10);
    decimal_is_not_empty(b / 10);
    if a < 10 {
        assert(decimal(a) == seq![digit(a)]);
        assert(b < 10);
        assert(digit(a) == decimal(a)[0] && digit(b) == decimal(b)[0]);
    } else {
        assert(decimal(a).len() > 1);
        assert(b >= 10) by {
            if b < 10 {
                assert(decimal(b) == seq![digit(b)]);
            }
        }
        assert(decimal(a).last() == digit(a % 10) && decimal(b).last() == digit(b % 10));
        assert(a % 10 == b % 10);
        assert(decimal(a).drop_last() =~= decimal(a / 10));
        assert(decimal(b).drop_last() =~= decimal(b / 10));
        decimal_is_injective(a / 10, b / 10);
    }
}

proof fn decimal_holds_no_colon(n: nat)
    ensures
        !decimal(n).contains(':'),
    decreases n,
{
    if n >= 10 {
        decimal_holds_no_colon(n / 10);
        assert forall|i: int| 0 <= i < decimal(n).len() implies decimal(n)[i] != ':' by {
            if i < decimal(n / 10).len() {
                assert(decimal(n)[i] == decimal(n / 10)[i]);
            }
        }
    }
}

proof fn split_at_first_colon(a: Seq<char>, b: Seq<char>, c: Seq<char>, d: Seq<char>)
    requires
        a + seq![':'] + b == c + seq![':'] + d,
        !a.contains(':'),
        !c.contains(':'),
    ensures
        a == c,
        b == d,
{
    let whole = a + seq![':'] + b;
    let other = c + seq![':'] + d;
    assert(whole[a.len() as int] == ':');
    assert(other[c.len() as int] == ':');
    if a.len() < c.len() {
        assert(c[a.len() as int] == ':');
    } else if c.len() < a.len() {
        assert(a[c.len() as int] == ':');
    }
    assert(whole =~= a + (seq![':'] + b));
    assert(other =~= c + (seq![':'] + d));
    split_at_length(a, seq![':'] + b, c, seq![':'] + d);
    split_at_length(seq![':'], b, seq![':'], d);
}

proof fn split_at_length(a: Seq<char>, b: Seq<char>, c: Seq<char>, d: Seq<char>)
    requires
        a + b == c + d,
        a.len() == c.len(),
    ensures
        a == c,
        b == d,
{
    assert(a =~= (a + b).take(a.len() as int));
    assert(c =~= (c + d).take(c.len() as int));
    assert(b =~= (a + b).skip(a.len() as int));
    assert(d =~= (c + d).skip(c.len() as int));
}

/// What starts with a framed text can be split behind it in one way only.
proof fn split_behind_frame(a: Seq<char>, b: Seq<char>, c: Seq<char>, d: Seq<char>)
    requires
        framed(a) + b == framed(c) + d,
    ensures
        a == c,
        b == d,
{
    decimal_holds_no_colon(a.len());
    decimal_holds_no_colon(c.len());
    assert(framed(a) + b =~= decimal(a.len()) + seq![':'] + (a + b));
    assert(framed(c) + d =~= decimal(c.len()) + seq![':'] + (c + d));
    split_at_first_colon(decimal(a.len()), a + b, decimal(c.len()), c + d);
    decimal_is_injective(a.len(), c.len());
    split_at_length(a, b, c, d);
}

/// Two findings have the same key exactly where they are of one type at one spot.
pub proof fn keys_tell_spots_apart(a: VulnerabilityFinding, b: VulnerabilityFinding)
    ensures
        key(a) == key(b) <==> same_spot(a, b),
{
    if key(a) == key(b) {
        assert(key(a) =~= framed(a.vuln_type@) + (framed(a.location@) + site(a)));
        assert(key(b) =~= framed(b.vuln_type@) + (framed(b.location@) + site(b)));
        split_behind_frame(
            a.vuln_type@,
            framed(a.location@) + site(a),
            b.vuln_type@,
            framed(b.location@) + site(b),
        );
        split_behind_frame(a.location@, site(a), b.location@, site(b));
        assert(site(a)[0] == site(b)[0]);
        if a.line_number > 0 {
            split_at_length(
                seq!['L'],
                decimal(a.line_number as nat),
                seq!['L'],
                decimal(b.line_number as nat),
            );
            decimal_is_injective(a.line_number as nat, b.line_number as nat);
        } else {
            split_at_length(seq!['F'], a.function_name@, seq!['F'], b.function_name@);
        }
    }
}

/// What it takes to be at one spot. On known lines: the same type, location and line. Where
/// neither line is known: the same type, location and function. A known line is never the spot
/// of a finding whose line is not known.
pub proof fn spots_are_type_location_and_line(a: VulnerabilityFinding, b: VulnerabilityFinding)
    ensures
        a.line_number > 0 && b.line_number > 0 ==> (same_spot(a, b) <==> a.vuln_type@
            == b.vuln_type@ && a.location@ == b.location@ && a.line_number == b.line_number),
        a.line_number == 0 && b.line_number == 0 ==> (same_spot(a, b) <==> a.vuln_type@
            == b.vuln_type@ && a.location@ == b.location@ && a.function_name@ == b.function_name@),
        a.line_number > 0 && b.line_number == 0 ==> !same_spot(a, b),
        a.line_number == 0 && b.line_number > 0 ==> !same_spot(a, b),
{
}

/// The number that a series of decimal digits denotes.
pub open spec fn number_of(digits: Seq<char>) -> int
    decreases digits.len(),
{
    if digits.len() == 0 {
        0
    } else {
        10 * number_of(digits.drop_last()) + (digits.last() as int - '0' as int)
    }
}

/// Decimal notation reads back as the number, is made of the digits 0 to 9, and has no leading
/// zero but that of 0 itself.
pub proof fn decimal_reads_back(n: nat)
    ensures
        number_of(decimal(n)) == n,
        decimal(n).len() > 0,
        forall|i: int| 0 <= i < decimal(n).len() ==> '0' <= #[trigger] decimal(n)[i] <= '9',
        n > 0 ==> decimal(n)[0] != '0',
        n == 0 ==> decimal(n).len() == 1,
    decreases n,
{
    if n < 10 {
        assert(decimal(n).drop_last() =~= Seq::empty());
        reveal_with_fuel(number_of, 2);
    } else {
        decimal_reads_back(n / 10);
        assert(decimal(n).drop_last() =~= decimal(n / 10));
        assert(decimal(n)[0] == decimal(n / 10)[0]);
        assert forall|i: int| 0 <= i < decimal(n).len() implies '0' <= #[trigger] decimal(n)[i]
            <= '9' by {
            if i < decimal(n / 10).len() {
                assert(decimal(n)[i] == decimal(n / 10)[i]);
            }
        }
    }
}

} // verus!
