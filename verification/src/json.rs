//! JSON rendering of user records, as the HTTP surface serves them: a flat
//! object `{"id":<int>,"name":<string>,"age":<unsigned>}` per record, and a
//! plain array for a list. The text of every rendering is pinned down by
//! the spec functions here.

use vstd::prelude::*;
use vstd::string::StrSliceExecFns;
use vstd::string::StringExecFns;

use crate::domain::{User, UserView};
use crate::repository::views_of;

verus! {

/// The digit character of a value below ten.
pub open spec fn digit_char(d: int) -> char {
    if d == 0 {
        '0'
    } else if d == 1 {
        '1'
    } else if d == 2 {
        '2'
    } else if d == 3 {
        '3'
    } else if d == 4 {
        '4'
    } else if d == 5 {
        '5'
    } else if d == 6 {
        '6'
    } else if d == 7 {
        '7'
    } else if d == 8 {
        '8'
    } else {
        '9'
    }
}

/// The lower-case hexadecimal digit character of a value below sixteen.
pub open spec fn hex_char(d: int) -> char {
    if d < 10 {
        digit_char(d)
    } else if d == 10 {
        'a'
    } else if d == 11 {
        'b'
    } else if d == 12 {
        'c'
    } else if d == 13 {
        'd'
    } else if d == 14 {
        'e'
    } else {
        'f'
    }
}

/// The decimal digits of a value, most significant first, no leading zeros.
pub open spec fn dec_rep(n: nat) -> Seq<char>
    decreases n,
{
    if n < 10 {
        seq![digit_char(n as int)]
    } else {
        dec_rep(n / 10).push(digit_char((n % 10) as int))
    }
}

/// The decimal rendering of a possibly negative value.
pub open spec fn int_rep(i: int) -> Seq<char> {
    if i < 0 {
        seq!['-'] + dec_rep((-i) as nat)
    } else {
        dec_rep(i as nat)
    }
}

/// The JSON escape of one character inside a string: a quote and a
/// backslash get a backslash, a control character becomes `\u00` and two
/// hex digits, anything else stands as it is.
pub open spec fn escaped_char(c: char) -> Seq<char> {
    if c == '"' {
        "\\\""@
    } else if c == '\\' {
        "\\\\"@
    } else if (c as u32) < 32 {
        "\\u00"@ + seq![hex_char((c as u32) as int / 16), hex_char((c as u32) as int % 16)]
    } else {
        seq![c]
    }
}

/// The JSON escape of a whole string body, character by character.
pub open spec fn escaped(s: Seq<char>) -> Seq<char>
    decreases s.len(),
{
    if s.len() == 0 {
        Seq::empty()
    } else {
        escaped(s.drop_last()) + escaped_char(s.last())
    }
}

/// The JSON text of one user record.
pub open spec fn json_of_user(u: UserView) -> Seq<char> {
    "{\"id\":"@ + int_rep(u.id) + ",\"name\":\""@ + escaped(u.name) + "\",\"age\":"@ + dec_rep(
        u.age as nat,
    ) + "}"@
}

/// The comma-separated JSON texts of the records, in order.
pub open spec fn json_items(s: Seq<UserView>) -> Seq<char>
    decreases s.len(),
{
    if s.len() == 0 {
        Seq::empty()
    } else if s.len() == 1 {
        json_of_user(s[0])
    } else {
        json_items(s.drop_last()) + ","@ + json_of_user(s.last())
    }
}

/// The JSON text of a list of records.
pub open spec fn json_of_users(s: Seq<UserView>) -> Seq<char> {
    "["@ + json_items(s) + "]"@
}

/// The one-character string of a decimal digit.
fn digit_str(d: u64) -> (r: &'static str)
    requires
        d < 10,
    ensures
        r@ == seq![digit_char(d as int)],
{
    let r: &'static str = match d {
        0 => "0",
        1 => "1",
        2 => "2",
        3 => "3",
        4 => "4",
        5 => "5",
        6 => "6",
        7 => "7",
        8 => "8",
        _ => "9",
    };
    proof {
        reveal_strlit("0");
        reveal_strlit("1");
        reveal_strlit("2");
        reveal_strlit("3");
        reveal_strlit("4");
        reveal_strlit("5");
        reveal_strlit("6");
        reveal_strlit("7");
        reveal_strlit("8");
        reveal_strlit("9");
        assert(r@ =~= seq![digit_char(d as int)]);
    }
    r
}

/// The one-character string of a lower-case hexadecimal digit.
fn hex_str(d: u64) -> (r: &'static str)
    requires
        d < 16,
    ensures
        r@ == seq![hex_char(d as int)],
{
    if d < 10 {
        digit_str(d)
    } else {
        let r: &'static str = match d {
            10 => "a",
            11 => "b",
            12 => "c",
            13 => "d",
            14 => "e",
            _ => "f",
        };
        proof {
            reveal_strlit("a");
            reveal_strlit("b");
            reveal_strlit("c");
            reveal_strlit("d");
            reveal_strlit("e");
            reveal_strlit("f");
            assert(r@ =~= seq![hex_char(d as int)]);
        }
        r
    }
}

/// The decimal string of an unsigned value.
fn dec_string(n: u64) -> (r: String)
    ensures
        r@ == dec_rep(n as nat),
    decreases n,
{
    if n < 10 {
        String::from_str(digit_str(n))
    } else {
        let mut s = dec_string(n / 10);
        s.append(digit_str(n % 10));
        proof {
            assert(s@ =~= dec_rep(n as nat));
        }
        s
    }
}

/// The decimal string of a signed value.
fn int_string(i: i64) -> (r: String)
    ensures
        r@ == int_rep(i as int),
{
    if i >= 0 {
        let s = dec_string(i as u64);
        s
    } else {
        let magnitude: u64 = (-(i as i128)) as u64;
        let mut s = String::from_str("-");
        s.append(dec_string(magnitude).as_str());
        proof {
            reveal_strlit("-");
            assert("-"@ =~= seq!['-']);
            assert(s@ =~= int_rep(i as int));
        }
        s
    }
}

/// The escaped body of a JSON string.
fn escape_string(s: &str) -> (r: String)
    ensures
        r@ == escaped(s@),
{
    let n = s.unicode_len();
    let mut out = String::new();
    let mut i: usize = 0;
    while i < n
        invariant
            n == s@.len(),
            i <= n,
            out@ == escaped(s@.take(i as int)),
        decreases n - i,
    {
        let c = s.get_char(i);
        if c == '"' {
            out.append("\\\"");
        } else if c == '\\' {
            out.append("\\\\");
        } else if (c as u32) < 32 {
            let code = c as u32;
            out.append("\\u00");
            out.append(hex_str((code / 16) as u64));
            out.append(hex_str((code % 16) as u64));
        } else {
            out.append(s.substring_char(i, i + 1));
        }
        proof {
            assert(s@.take(i + 1 as int).drop_last() =~= s@.take(i as int));
            assert(out@ =~= escaped(s@.take(i + 1 as int)));
        }
        i = i + 1;
    }
    proof {
        assert(s@.take(n as int) =~= s@);
    }
    out
}

/// Renders one user record as its JSON object.
pub fn render_user(u: &User) -> (r: String)
    ensures
        r@ == json_of_user(u@),
{
    let mut out = String::new();
    out.append("{\"id\":");
    out.append(int_string(u.id.0).as_str());
    out.append(",\"name\":\"");
    out.append(escape_string(u.name.as_str()).as_str());
    out.append("\",\"age\":");
    out.append(dec_string(u.age as u64).as_str());
    out.append("}");
    proof {
        assert(out@ =~= json_of_user(u@));
    }
    out
}

/// Renders a list of user records as its JSON array, in the list's order.
pub fn render_users(users: &Vec<User>) -> (r: String)
    ensures
        r@ == json_of_users(views_of(users@)),
{
    let mut out = String::new();
    out.append("[");
    let mut i: usize = 0;
    while i < users.len()
        invariant
            i <= users.len(),
            out@ == "["@ + json_items(views_of(users@).take(i as int)),
        decreases users.len() - i,
    {
        if i > 0 {
            out.append(",");
        }
        out.append(render_user(&users[i]).as_str());
        proof {
            assert(views_of(users@).take(i + 1 as int).drop_last() =~= views_of(users@).take(
                i as int,
            ));
            assert(views_of(users@).take(i + 1 as int).last() == users@[i as int]@);
            assert(out@ =~= "["@ + json_items(views_of(users@).take(i + 1 as int)));
        }
        i = i + 1;
    }
    out.append("]");
    proof {
        assert(views_of(users@).take(users@.len() as int) =~= views_of(users@));
        assert(out@ =~= json_of_users(views_of(users@)));
    }
    out
}

} // verus!
