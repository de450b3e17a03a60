//! Typed requests for remote operations.
//!
//! Each operation is a small struct that turns itself into a
//! [`RequestBuilder`]: the remote method's name plus a JSON body whose
//! exact bytes are pinned down, digit by digit and escape by escape, by
//! the spec functions of this module. The host's transport takes the
//! built [`Request`] from there.

use crate::types::{ChatId, Integer};
use vstd::prelude::*;
use vstd::string::*;
use vstd::utf8::encode_utf8;

verus! {

/// HTTP method of a request.
#[derive(Clone, Copy, Debug, PartialEq, Eq, Structural)]
pub enum RequestMethod {
    Get,
    Post,
}

/// Body of a request.
#[derive(Debug)]
pub enum RequestBody {
    /// A JSON document.
    Json(Vec<u8>),
    /// No body.
    Empty,
}

/// A finished request for the host's transport.
#[derive(Debug)]
pub struct Request {
    pub method: RequestMethod,
    pub url: String,
    pub body: RequestBody,
}

/// A request under construction: everything but the server and token.
#[derive(Debug)]
pub struct RequestBuilder {
    pub method: RequestMethod,
    pub path: String,
    pub body: RequestBody,
}

impl RequestBuilder {
    /// A POST request with a JSON body for the remote method named `path`.
    pub fn json(path: &str, data: Vec<u8>) -> (r: RequestBuilder)
        ensures
            r.method is Post,
            r.path@ == path@,
            r.body matches RequestBody::Json(d) && d@ == data@,
    {
        RequestBuilder {
            method: RequestMethod::Post,
            path: String::from_str(path),
            body: RequestBody::Json(data),
        }
    }

    /// The finished request; its URL is `<base_url>/bot<token>/<path>`.
    pub fn build(self, base_url: &str, token: &str) -> (r: Request)
        ensures
            r.method == self.method,
            r.body == self.body,
            r.url@ == base_url@ + "/bot"@ + token@ + "/"@ + self.path@,
    {
        let mut url = String::new();
        url.append(base_url);
        url.append("/bot");
        url.append(token);
        url.append("/");
        url.append(self.path.as_str());
        proof {
            assert(url@ =~= base_url@ + "/bot"@ + token@ + "/"@ + self.path@);
        }
        Request { method: self.method, url, body: self.body }
    }
}

/// The decimal digit `d` as a one-character string.
pub open spec fn digit_lit(d: int) -> Seq<char> {
    if d == 0 {
        "0"@
    } else if d == 1 {
        "1"@
    } else if d == 2 {
        "2"@
    } else if d == 3 {
        "3"@
    } else if d == 4 {
        "4"@
    } else if d == 5 {
        "5"@
    } else if d == 6 {
        "6"@
    } else if d == 7 {
        "7"@
    } else if d == 8 {
        "8"@
    } else if d == 9 {
        "9"@
    } else {
        "a"@
    }
}

/// The hexadecimal digit `d` as a one-character string, lower case.
pub open spec fn hex_lit(d: int) -> Seq<char> {
    if d < 10 {
        digit_lit(d)
    } else if d == 10 {
        "a"@
    } else if d == 11 {
        "b"@
    } else if d == 12 {
        "c"@
    } else if d == 13 {
        "d"@
    } else if d == 14 {
        "e"@
    } else if d == 15 {
        "f"@
    } else {
        "f"@
    }
}

/// The decimal digits of a non-negative number, most significant first.
pub open spec fn dec_digits(n: int) -> Seq<char>
    recommends
        n >= 0,
    decreases n,
{
    if n < 10 {
        digit_lit(n)
    } else {
        dec_digits(n / 10) + digit_lit(n % 10)
    }
}

/// A number as JSON: its decimal digits, with a leading minus sign if it
/// is negative.
pub open spec fn int_json(n: int) -> Seq<char> {
    if n < 0 {
        "-"@ + dec_digits(-n)
    } else {
        dec_digits(n)
    }
}

/// How one character appears inside a JSON string: quote, backslash and
/// control characters are escaped, everything else stands for itself.
pub open spec fn escape_char(c: char) -> Seq<char> {
    if c == '"' {
        "\\\""@
    } else if c == '\\' {
        "\\\\"@
    } else if c == '\n' {
        "\\n"@
    } else if c == '\r' {
        "\\r"@
    } else if c == '\t' {
        "\\t"@
    } else if (c as u32) < 0x20 {
        "\\u00"@ + hex_lit((c as u32) as int / 16) + hex_lit((c as u32) as int % 16)
    } else {
        seq![c]
    }
}

/// The characters of `s` as they appear inside a JSON string.
pub open spec fn json_escaped(s: Seq<char>) -> Seq<char>
    decreases s.len(),
{
    if s.len() == 0 {
        Seq::empty()
    } else {
        json_escaped(s.drop_last()) + escape_char(s.last())
    }
}

proof fn lemma_json_escaped_take_succ(s: Seq<char>, i: int)
    requires
        0 <= i < s.len(),
    ensures
        json_escaped(s.take(i + 1)) == json_escaped(s.take(i)) + escape_char(s[i]),
{
    assert(s.take(i + 1).drop_last() =~= s.take(i));
    assert(s.take(i + 1).last() == s[i]);
}

/// A chat identifier as JSON: a bare number, or a quoted username.
pub open spec fn chat_id_json(c: ChatId) -> Seq<char> {
    match c {
        ChatId::Id(n) => int_json(n as int),
        ChatId::Username(s) => "\""@ + json_escaped(s@) + "\""@,
    }
}

/// The decimal digit `d`, as a string slice.
fn digit_str(d: u64) -> (r: &'static str)
    requires
        d < 10,
    ensures
        r@ == digit_lit(d as int),
{
    match d {
        0 => "0",
        1 => "1",
        2 => "2",
        3 => "3",
        4 => "4",
        5 => "5",
        6 => "6",
        7 => "7",
        8 => "8",
        _ => "9",
    }
}

/// The hexadecimal digit `d`, as a string slice.
fn hex_str(d: u32) -> (r: &'static str)
    requires
        d < 16,
    ensures
        r@ == hex_lit(d as int),
{
    match d {
        0 => "0",
        1 => "1",
        2 => "2",
        3 => "3",
        4 => "4",
        5 => "5",
        6 => "6",
        7 => "7",
        8 => "8",
        9 => "9",
        10 => "a",
        11 => "b",
        12 => "c",
        13 => "d",
        14 => "e",
        _ => "f",
    }
}

/// Appends the decimal digits of `m` to `out`.
fn push_udecimal(out: &mut String, m: u64)
    ensures
        final(out)@ == old(out)@ + dec_digits(m as int),
    decreases m,
{
    if m < 10 {
        out.append(digit_str(m));
    } else {
        assert(m / 10 < m);
        push_udecimal(out, m / 10);
        out.append(digit_str(m % 10));
        proof {
            assert(old(out)@ + dec_digits(m as int / 10) + digit_lit(m as int % 10) =~= old(out)@
                + dec_digits(m as int));
        }
    }
}

/// Appends `n` as JSON to `out`.
fn push_decimal(out: &mut String, n: Integer)
    ensures
        final(out)@ == old(out)@ + int_json(n as int),
{
    if n < 0 {
        let m: u64 = (-(n as i128)) as u64;
        out.append("-");
        push_udecimal(out, m);
        proof {
            assert(old(out)@ + "-"@ + dec_digits(m as int) =~= old(out)@ + int_json(n as int));
        }
    } else {
        push_udecimal(out, n as u64);
    }
}

/// Appends the characters of `s`, escaped for a JSON string, to `out`.
fn push_escaped(out: &mut String, s: &str)
    ensures
        final(out)@ == old(out)@ + json_escaped(s@),
{
    let len = s.unicode_len();
    let mut i: usize = 0;
    proof {
        assert(s@.take(0) =~= Seq::<char>::empty());
        assert(out@ + json_escaped(s@.take(0)) =~= out@);
    }
    while i < len
        invariant
            i <= len,
            len == s@.len(),
            out@ == old(out)@ + json_escaped(s@.take(i as int)),
        decreases len - i,
    {
        let ghost prefix = out@;
        let c = s.get_char(i);
        proof {
            lemma_json_escaped_take_succ(s@, i as int);
        }
        if c == '"' {
            out.append("\\\"");
        } else if c == '\\' {
            out.append("\\\\");
        } else if c == '\n' {
            out.append("\\n");
        } else if c == '\r' {
            out.append("\\r");
        } else if c == '\t' {
            out.append("\\t");
        } else if (c as u32) < 0x20 {
            let v = c as u32;
            out.append("\\u00");
            out.append(hex_str(v / 16));
            out.append(hex_str(v % 16));
            proof {
                assert(out@ =~= prefix + escape_char(c));
            }
        } else {
            let piece = s.substring_char(i, i + 1);
            out.append(piece);
            proof {
                assert(piece@ =~= seq![c]);
            }
        }
        proof {
            assert(out@ =~= old(out)@ + json_escaped(s@.take(i + 1)));
        }
        i = i + 1;
    }
    proof {
        assert(s@.take(len as int) =~= s@);
    }
}

/// Appends `c` as JSON to `out`.
fn push_chat_id(out: &mut String, c: &ChatId)
    ensures
        final(out)@ == old(out)@ + chat_id_json(*c),
{
    match c {
        ChatId::Id(n) => push_decimal(out, *n),
        ChatId::Username(s) => {
            out.append("\"");
            push_escaped(out, s.as_str());
            out.append("\"");
            proof {
                assert(out@ =~= old(out)@ + chat_id_json(*c));
            }
        },
    }
}

/// The JSON body of a [`SetChatTitle`] request.
pub open spec fn set_chat_title_body(chat_id: ChatId, title: Seq<char>) -> Seq<char> {
    "{\"chat_id\":"@ + chat_id_json(chat_id) + ",\"title\":\""@ + json_escaped(title) + "\"}"@
}

/// Change the title of a chat
///
/// Titles can't be changed for private chats
/// The bot must be an administrator in the chat for this to work
/// and must have the appropriate admin rights
#[derive(Clone, Debug)]
pub struct SetChatTitle {
    pub chat_id: ChatId,
    pub title: String,
}

impl SetChatTitle {
    /// Creates a new SetChatTitle
    ///
    /// # Arguments
    ///
    /// * chat_id - Unique identifier for the target chat
    /// * title - New chat title, 1-255 characters
    pub fn new(chat_id: ChatId, title: &str) -> (r: Self)
        ensures
            r.chat_id == chat_id,
            r.title@ == title@,
    {
        SetChatTitle { chat_id, title: String::from_str(title) }
    }

    /// The request for this operation: a POST of its JSON body to the
    /// remote method `setChatTitle`.
    pub fn into_request(self) -> (r: RequestBuilder)
        ensures
            r.method is Post,
            r.path@ == "setChatTitle"@,
            r.body matches RequestBody::Json(d) && d@ == encode_utf8(
                set_chat_title_body(self.chat_id, self.title@),
            ),
    {
        let mut out = String::new();
        out.append("{\"chat_id\":");
        push_chat_id(&mut out, &self.chat_id);
        out.append(",\"title\":\"");
        push_escaped(&mut out, self.title.as_str());
        out.append("\"}");
        proof {
            assert(out@ =~= set_chat_title_body(self.chat_id, self.title@));
        }
        let data = out.as_str().as_bytes_vec();
        RequestBuilder::json("setChatTitle", data)
    }
}

/// The JSON body of an [`UnbanChatMember`] request.
pub open spec fn unban_chat_member_body(chat_id: ChatId, user_id: Integer) -> Seq<char> {
    "{\"chat_id\":"@ + chat_id_json(chat_id) + ",\"user_id\":"@ + int_json(user_id as int) + "}"@
}

/// Unban a previously kicked user in a supergroup or channel
///
/// The user will not return to the group or channel
/// automatically, but will be able to join via link, etc.
///
/// The bot must be an administrator for this to work
#[derive(Clone, Debug)]
pub struct UnbanChatMember {
    pub chat_id: ChatId,
    pub user_id: Integer,
}

impl UnbanChatMember {
    /// Creates a new UnbanChatMember
    ///
    /// # Arguments
    ///
    /// * chat_id - Unique identifier for the target chat
    /// * user_id - Unique identifier of the target user
    pub fn new(chat_id: ChatId, user_id: Integer) -> (r: Self)
        ensures
            r.chat_id == chat_id,
            r.user_id == user_id,
    {
        UnbanChatMember { chat_id, user_id }
    }

    /// The request for this operation: a POST of its JSON body to the
    /// remote method `unbanChatMember`.
    pub fn into_request(self) -> (r: RequestBuilder)
        ensures
            r.method is Post,
            r.path@ == "unbanChatMember"@,
            r.body matches RequestBody::Json(d) && d@ == encode_utf8(
                unban_chat_member_body(self.chat_id, self.user_id),
            ),
    {
        let mut out = String::new();
        out.append("{\"chat_id\":");
        push_chat_id(&mut out, &self.chat_id);
        out.append(",\"user_id\":");
        push_decimal(&mut out, self.user_id);
        out.append("}");
        proof {
            assert(out@ =~= unban_chat_member_body(self.chat_id, self.user_id));
        }
        let data = out.as_str().as_bytes_vec();
        RequestBuilder::json("unbanChatMember", data)
    }
}

} // verus!
