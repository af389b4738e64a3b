//! Reading a completion response body: the `choices` list with each
//! choice's message, and the optional `error` object some providers
//! put in a successful response even under a success status. Unknown
//! members are skipped; the first occurrence of a known key wins;
//! `choices` defaults to the empty list when absent.

use crate::client::ChatMessage;
use crate::errors::ClientError;
use crate::parse::{spec_ws, spec_member_key, spec_parse_string, spec_skip_value, ws,
    member_key_at, parse_string_at, skip_value_at};
use crate::text::{chars_eq, chars_to_string, str_to_chars};
use vstd::prelude::*;

verus! {

/// One returned choice.
pub struct ChatChoice {
    pub message: ChatMessage,
}

/// The error object some providers put in the body.
pub struct ApiError {
    pub message: String,
}

/// A parsed response: the choices, and the body's error if any.
pub struct ChatResponse {
    pub choices: Vec<ChatChoice>,
    pub error: Option<ApiError>,
}

/// The role and content of each choice's message, as sequences.
pub open spec fn choices_view(cs: Seq<ChatChoice>) -> Seq<(Seq<char>, Seq<char>)> {
    cs.map_values(|c: ChatChoice| (c.message.role@, c.message.content@))
}

/// Walks a message object's members, `i` just past the brace or the
/// previous member: both `role` and `content` must appear.
pub open spec fn spec_msg_members(
    s: Seq<char>,
    i: int,
    first: bool,
    role: Option<Seq<char>>,
    content: Option<Seq<char>>,
) -> Option<((Seq<char>, Seq<char>), int)>
    decreases s.len() - i,
{
    let j = spec_ws(s, i);
    if j < i || j >= s.len() {
        None
    } else if s[j] == '}' {
        if role is Some && content is Some {
            Some(((role->Some_0, content->Some_0), j + 1))
        } else {
            None
        }
    } else {
        match spec_member_key(s, j, first) {
            None => None,
            Some((key, v)) => if v < i || v > s.len() {
                None
            } else if key == seq!['r', 'o', 'l', 'e'] && role is None {
                match spec_parse_string(s, v) {
                    None => None,
                    Some((t, end)) => if end > i && end <= s.len() {
                        spec_msg_members(s, end, false, Some(t), content)
                    } else {
                        None
                    },
                }
            } else if key == seq!['c', 'o', 'n', 't', 'e', 'n', 't'] && content is None {
                match spec_parse_string(s, v) {
                    None => None,
                    Some((t, end)) => if end > i && end <= s.len() {
                        spec_msg_members(s, end, false, role, Some(t))
                    } else {
                        None
                    },
                }
            } else {
                match spec_skip_value(s, v) {
                    None => None,
                    Some(end) => if end > i && end <= s.len() {
                        spec_msg_members(s, end, false, role, content)
                    } else {
                        None
                    },
                }
            },
        }
    }
}

/// Reads the message object at `i`: its role and content.
pub open spec fn spec_parse_message(s: Seq<char>, i: int) -> Option<((Seq<char>, Seq<char>), int)> {
    if 0 <= i && i < s.len() && s[i] == '{' {
        spec_msg_members(s, i + 1, true, None, None)
    } else {
        None
    }
}

/// Walks a choice object's members: `message` must appear.
pub open spec fn spec_choice_members(
    s: Seq<char>,
    i: int,
    first: bool,
    msg: Option<(Seq<char>, Seq<char>)>,
) -> Option<((Seq<char>, Seq<char>), int)>
    decreases s.len() - i,
{
    let j = spec_ws(s, i);
    if j < i || j >= s.len() {
        None
    } else if s[j] == '}' {
        match msg {
            Some(m) => Some((m, j + 1)),
            None => None,
        }
    } else {
        match spec_member_key(s, j, first) {
            None => None,
            Some((key, v)) => if v < i || v > s.len() {
                None
            } else if key == seq!['m', 'e', 's', 's', 'a', 'g', 'e'] && msg is None {
                match spec_parse_message(s, v) {
                    None => None,
                    Some((m, end)) => if end > i && end <= s.len() {
                        spec_choice_members(s, end, false, Some(m))
                    } else {
                        None
                    },
                }
            } else {
                match spec_skip_value(s, v) {
                    None => None,
                    Some(end) => if end > i && end <= s.len() {
                        spec_choice_members(s, end, false, msg)
                    } else {
                        None
                    },
                }
            },
        }
    }
}

/// Reads the choice object at `i`: its message's role and content.
pub open spec fn spec_parse_choice(s: Seq<char>, i: int) -> Option<((Seq<char>, Seq<char>), int)> {
    if 0 <= i && i < s.len() && s[i] == '{' {
        spec_choice_members(s, i + 1, true, None)
    } else {
        None
    }
}

/// Walks the elements of the choices array.
pub open spec fn spec_choice_elems(
    s: Seq<char>,
    i: int,
    first: bool,
    acc: Seq<(Seq<char>, Seq<char>)>,
) -> Option<(Seq<(Seq<char>, Seq<char>)>, int)>
    decreases s.len() - i,
{
    let j = spec_ws(s, i);
    if j < i || j >= s.len() {
        None
    } else if s[j] == ']' {
        Some((acc, j + 1))
    } else {
        let v = if first {
            j
        } else if s[j] == ',' {
            spec_ws(s, j + 1)
        } else {
            -1
        };
        if v < i || v > s.len() {
            None
        } else {
            match spec_parse_choice(s, v) {
                None => None,
                Some((m, end)) => if end > i && end <= s.len() {
                    spec_choice_elems(s, end, false, acc.push(m))
                } else {
                    None
                },
            }
        }
    }
}

/// Reads the choices array at `i`.
pub open spec fn spec_parse_choices(s: Seq<char>, i: int) -> Option<
    (Seq<(Seq<char>, Seq<char>)>, int),
> {
    if 0 <= i && i < s.len() && s[i] == '[' {
        spec_choice_elems(s, i + 1, true, Seq::empty())
    } else {
        None
    }
}

/// Walks an error object's members: `message` must appear.
pub open spec fn spec_err_members(s: Seq<char>, i: int, first: bool, msg: Option<Seq<char>>) -> Option<
    (Seq<char>, int),
>
    decreases s.len() - i,
{
    let j = spec_ws(s, i);
    if j < i || j >= s.len() {
        None
    } else if s[j] == '}' {
        match msg {
            Some(m) => Some((m, j + 1)),
            None => None,
        }
    } else {
        match spec_member_key(s, j, first) {
            None => None,
            Some((key, v)) => if v < i || v > s.len() {
                None
            } else if key == seq!['m', 'e', 's', 's', 'a', 'g', 'e'] && msg is None {
                match spec_parse_string(s, v) {
                    None => None,
                    Some((t, end)) => if end > i && end <= s.len() {
                        spec_err_members(s, end, false, Some(t))
                    } else {
                        None
                    },
                }
            } else {
                match spec_skip_value(s, v) {
                    None => None,
                    Some(end) => if end > i && end <= s.len() {
                        spec_err_members(s, end, false, msg)
                    } else {
                        None
                    },
                }
            },
        }
    }
}

/// Reads the error object at `i`: its message.
pub open spec fn spec_parse_error_obj(s: Seq<char>, i: int) -> Option<(Seq<char>, int)> {
    if 0 <= i && i < s.len() && s[i] == '{' {
        spec_err_members(s, i + 1, true, None)
    } else {
        None
    }
}

/// Walks the response object's members: optional `choices`, optional
/// `error`, everything else skipped.
pub open spec fn spec_resp_members(
    s: Seq<char>,
    i: int,
    first: bool,
    ch: Option<Seq<(Seq<char>, Seq<char>)>>,
    er: Option<Seq<char>>,
) -> Option<((Option<Seq<(Seq<char>, Seq<char>)>>, Option<Seq<char>>), int)>
    decreases s.len() - i,
{
    let j = spec_ws(s, i);
    if j < i || j >= s.len() {
        None
    } else if s[j] == '}' {
        Some(((ch, er), j + 1))
    } else {
        match spec_member_key(s, j, first) {
            None => None,
            Some((key, v)) => if v < i || v > s.len() {
                None
            } else if key == seq!['c', 'h', 'o', 'i', 'c', 'e', 's'] && ch is None {
                match spec_parse_choices(s, v) {
                    None => None,
                    Some((list, end)) => if end > i && end <= s.len() {
                        spec_resp_members(s, end, false, Some(list), er)
                    } else {
                        None
                    },
                }
            } else if key == seq!['e', 'r', 'r', 'o', 'r'] && er is None {
                match spec_parse_error_obj(s, v) {
                    None => None,
                    Some((m, end)) => if end > i && end <= s.len() {
                        spec_resp_members(s, end, false, ch, Some(m))
                    } else {
                        None
                    },
                }
            } else {
                match spec_skip_value(s, v) {
                    None => None,
                    Some(end) => if end > i && end <= s.len() {
                        spec_resp_members(s, end, false, ch, er)
                    } else {
                        None
                    },
                }
            },
        }
    }
}

/// Reads a whole response body: one object, then nothing but
/// whitespace. Gives the choices (empty when the member is absent) and
/// the body error's message, if any.
pub open spec fn spec_parse_response(s: Seq<char>) -> Option<
    (Seq<(Seq<char>, Seq<char>)>, Option<Seq<char>>),
> {
    let i = spec_ws(s, 0);
    if 0 <= i && i < s.len() && s[i] == '{' {
        match spec_resp_members(s, i + 1, true, None, None) {
            None => None,
            Some(((ch, er), end)) => if 0 <= end && spec_ws(s, end) == s.len() {
                Some(
                    (
                        match ch {
                            Some(list) => list,
                            None => Seq::empty(),
                        },
                        er,
                    ),
                )
            } else {
                None
            },
        }
    } else {
        None
    }
}

/// The view of optional decoded characters.
pub open spec fn opt_chars_view(o: Option<Vec<char>>) -> Option<Seq<char>> {
    match o {
        Some(v) => Some(v@),
        None => None,
    }
}

/// The view of an optional message.
pub open spec fn opt_msg_view(o: Option<ChatMessage>) -> Option<(Seq<char>, Seq<char>)> {
    match o {
        Some(m) => Some((m.role@, m.content@)),
        None => None,
    }
}

/// The view of an optional choice list.
pub open spec fn opt_choices_view(o: Option<Vec<ChatChoice>>) -> Option<
    Seq<(Seq<char>, Seq<char>)>,
> {
    match o {
        Some(v) => Some(choices_view(v@)),
        None => None,
    }
}

/// The view of an optional string.
pub open spec fn opt_string_view(o: Option<String>) -> Option<Seq<char>> {
    match o {
        Some(v) => Some(v@),
        None => None,
    }
}

/// Walks a message object's members; see [`spec_msg_members`].
fn msg_members_at(
    s: &Vec<char>,
    i: usize,
    first: bool,
    role: Option<Vec<char>>,
    content: Option<Vec<char>>,
) -> (r: Option<(ChatMessage, usize)>)
    requires
        i <= s.len(),
    ensures
        match r {
            Some(t) => spec_msg_members(s@, i as int, first, opt_chars_view(role), opt_chars_view(content))
                == Some(((t.0.role@, t.0.content@), t.1 as int)) && t.1 <= s.len(),
            None => spec_msg_members(
                s@,
                i as int,
                first,
                opt_chars_view(role),
                opt_chars_view(content),
            ) is None,
        },
    decreases s.len() - i,
{
    let j: usize = ws(s, i);
    if j >= s.len() {
        return None;
    }
    if s[j] == '}' {
        return match (role, content) {
            (Some(rr), Some(cc)) => Some(
                (
                    ChatMessage { role: chars_to_string(&rr), content: chars_to_string(&cc) },
                    j + 1,
                ),
            ),
            _ => None,
        };
    }
    match member_key_at(s, j, first) {
        None => None,
        Some(t) => {
            let key: Vec<char> = t.0;
            let v: usize = t.1;
            if v < i {
                return None;
            }
            let role_w: Vec<char> = vec!['r', 'o', 'l', 'e'];
            let content_w: Vec<char> = vec!['c', 'o', 'n', 't', 'e', 'n', 't'];
            proof {
                assert(role_w@ =~= seq!['r', 'o', 'l', 'e']);
                assert(content_w@ =~= seq!['c', 'o', 'n', 't', 'e', 'n', 't']);
            }
            if chars_eq(&key, &role_w) && role.is_none() {
                match parse_string_at(s, v) {
                    None => None,
                    Some(p) => {
                        if p.1 > i {
                            msg_members_at(s, p.1, false, Some(p.0), content)
                        } else {
                            None
                        }
                    },
                }
            } else if chars_eq(&key, &content_w) && content.is_none() {
                match parse_string_at(s, v) {
                    None => None,
                    Some(p) => {
                        if p.1 > i {
                            msg_members_at(s, p.1, false, role, Some(p.0))
                        } else {
                            None
                        }
                    },
                }
            } else {
                match skip_value_at(s, v) {
                    None => None,
                    Some(end) => {
                        if end > i {
                            msg_members_at(s, end, false, role, content)
                        } else {
                            None
                        }
                    },
                }
            }
        },
    }
}

/// Reads the message object at `i`; see [`spec_parse_message`].
fn parse_message_at(s: &Vec<char>, i: usize) -> (r: Option<(ChatMessage, usize)>)
    requires
        i <= s.len(),
    ensures
        match r {
            Some(t) => spec_parse_message(s@, i as int) == Some(((t.0.role@, t.0.content@), t.1 as int))
                && t.1 <= s.len(),
            None => spec_parse_message(s@, i as int) is None,
        },
{
    if i < s.len() && s[i] == '{' {
        msg_members_at(s, i + 1, true, None, None)
    } else {
        None
    }
}

/// Walks a choice object's members; see [`spec_choice_members`].
fn choice_members_at(s: &Vec<char>, i: usize, first: bool, msg: Option<ChatMessage>) -> (r: Option<
    (ChatMessage, usize),
>)
    requires
        i <= s.len(),
    ensures
        match r {
            Some(t) => spec_choice_members(s@, i as int, first, opt_msg_view(msg)) == Some(
                ((t.0.role@, t.0.content@), t.1 as int),
            ) && t.1 <= s.len(),
            None => spec_choice_members(s@, i as int, first, opt_msg_view(msg)) is None,
        },
    decreases s.len() - i,
{
    let j: usize = ws(s, i);
    if j >= s.len() {
        return None;
    }
    if s[j] == '}' {
        return match msg {
            Some(m) => Some((m, j + 1)),
            None => None,
        };
    }
    match member_key_at(s, j, first) {
        None => None,
        Some(t) => {
            let key: Vec<char> = t.0;
            let v: usize = t.1;
            if v < i {
                return None;
            }
            let message_w: Vec<char> = vec!['m', 'e', 's', 's', 'a', 'g', 'e'];
            proof {
                assert(message_w@ =~= seq!['m', 'e', 's', 's', 'a', 'g', 'e']);
            }
            if chars_eq(&key, &message_w) && msg.is_none() {
                match parse_message_at(s, v) {
                    None => None,
                    Some(p) => {
                        if p.1 > i {
                            choice_members_at(s, p.1, false, Some(p.0))
                        } else {
                            None
                        }
                    },
                }
            } else {
                match skip_value_at(s, v) {
                    None => None,
                    Some(end) => {
                        if end > i {
                            choice_members_at(s, end, false, msg)
                        } else {
                            None
                        }
                    },
                }
            }
        },
    }
}

/// Reads the choice object at `i`; see [`spec_parse_choice`].
fn parse_choice_at(s: &Vec<char>, i: usize) -> (r: Option<(ChatMessage, usize)>)
    requires
        i <= s.len(),
    ensures
        match r {
            Some(t) => spec_parse_choice(s@, i as int) == Some(((t.0.role@, t.0.content@), t.1 as int))
                && t.1 <= s.len(),
            None => spec_parse_choice(s@, i as int) is None,
        },
{
    if i < s.len() && s[i] == '{' {
        choice_members_at(s, i + 1, true, None)
    } else {
        None
    }
}

/// Walks the choices array's elements; see [`spec_choice_elems`].
fn choice_elems_at(s: &Vec<char>, i: usize, first: bool, acc: Vec<ChatChoice>) -> (r: Option<
    (Vec<ChatChoice>, usize),
>)
    requires
        i <= s.len(),
    ensures
        match r {
            Some(t) => spec_choice_elems(s@, i as int, first, choices_view(acc@)) == Some(
                (choices_view(t.0@), t.1 as int),
            ) && t.1 <= s.len(),
            None => spec_choice_elems(s@, i as int, first, choices_view(acc@)) is None,
        },
    decreases s.len() - i,
{
    let j: usize = ws(s, i);
    if j >= s.len() {
        return None;
    }
    if s[j] == ']' {
        return Some((acc, j + 1));
    }
    let v: usize = if first {
        j
    } else if s[j] == ',' {
        ws(s, j + 1)
    } else {
        return None;
    };
    match parse_choice_at(s, v) {
        None => None,
        Some(p) => {
            if p.1 > i {
                let ghost before: Seq<(Seq<char>, Seq<char>)> = choices_view(acc@);
                let ghost m: (Seq<char>, Seq<char>) = (p.0.role@, p.0.content@);
                let mut acc2: Vec<ChatChoice> = acc;
                acc2.push(ChatChoice { message: p.0 });
                proof {
                    assert(choices_view(acc2@) =~= before.push(m));
                }
                choice_elems_at(s, p.1, false, acc2)
            } else {
                None
            }
        },
    }
}

/// Reads the choices array at `i`; see [`spec_parse_choices`].
fn parse_choices_at(s: &Vec<char>, i: usize) -> (r: Option<(Vec<ChatChoice>, usize)>)
    requires
        i <= s.len(),
    ensures
        match r {
            Some(t) => spec_parse_choices(s@, i as int) == Some((choices_view(t.0@), t.1 as int))
                && t.1 <= s.len(),
            None => spec_parse_choices(s@, i as int) is None,
        },
{
    if i < s.len() && s[i] == '[' {
        let acc: Vec<ChatChoice> = Vec::new();
        proof {
            assert(choices_view(acc@) =~= Seq::<(Seq<char>, Seq<char>)>::empty());
        }
        choice_elems_at(s, i + 1, true, acc)
    } else {
        None
    }
}

/// Walks an error object's members; see [`spec_err_members`].
fn err_members_at(s: &Vec<char>, i: usize, first: bool, msg: Option<Vec<char>>) -> (r: Option<
    (String, usize),
>)
    requires
        i <= s.len(),
    ensures
        match r {
            Some(t) => spec_err_members(s@, i as int, first, opt_chars_view(msg)) == Some(
                (t.0@, t.1 as int),
            ) && t.1 <= s.len(),
            None => spec_err_members(s@, i as int, first, opt_chars_view(msg)) is None,
        },
    decreases s.len() - i,
{
    let j: usize = ws(s, i);
    if j >= s.len() {
        return None;
    }
    if s[j] == '}' {
        return match msg {
            Some(m) => Some((chars_to_string(&m), j + 1)),
            None => None,
        };
    }
    match member_key_at(s, j, first) {
        None => None,
        Some(t) => {
            let key: Vec<char> = t.0;
            let v: usize = t.1;
            if v < i {
                return None;
            }
            let message_w: Vec<char> = vec!['m', 'e', 's', 's', 'a', 'g', 'e'];
            proof {
                assert(message_w@ =~= seq!['m', 'e', 's', 's', 'a', 'g', 'e']);
            }
            if chars_eq(&key, &message_w) && msg.is_none() {
                match parse_string_at(s, v) {
                    None => None,
                    Some(p) => {
                        if p.1 > i {
                            err_members_at(s, p.1, false, Some(p.0))
                        } else {
                            None
                        }
                    },
                }
            } else {
                match skip_value_at(s, v) {
                    None => None,
                    Some(end) => {
                        if end > i {
                            err_members_at(s, end, false, msg)
                        } else {
                            None
                        }
                    },
                }
            }
        },
    }
}

/// Reads the error object at `i`; see [`spec_parse_error_obj`].
fn parse_error_obj_at(s: &Vec<char>, i: usize) -> (r: Option<(String, usize)>)
    requires
        i <= s.len(),
    ensures
        match r {
            Some(t) => spec_parse_error_obj(s@, i as int) == Some((t.0@, t.1 as int)) && t.1
                <= s.len(),
            None => spec_parse_error_obj(s@, i as int) is None,
        },
{
    if i < s.len() && s[i] == '{' {
        err_members_at(s, i + 1, true, None)
    } else {
        None
    }
}

/// Walks the response object's members; see [`spec_resp_members`].
fn resp_members_at(
    s: &Vec<char>,
    i: usize,
    first: bool,
    ch: Option<Vec<ChatChoice>>,
    er: Option<String>,
) -> (r: Option<((Option<Vec<ChatChoice>>, Option<String>), usize)>)
    requires
        i <= s.len(),
    ensures
        match r {
            Some(t) => spec_resp_members(s@, i as int, first, opt_choices_view(ch), opt_string_view(er))
                == Some(((opt_choices_view(t.0.0), opt_string_view(t.0.1)), t.1 as int)) && t.1
                <= s.len(),
            None => spec_resp_members(
                s@,
                i as int,
                first,
                opt_choices_view(ch),
                opt_string_view(er),
            ) is None,
        },
    decreases s.len() - i,
{
    let j: usize = ws(s, i);
    if j >= s.len() {
        return None;
    }
    if s[j] == '}' {
        return Some(((ch, er), j + 1));
    }
    match member_key_at(s, j, first) {
        None => None,
        Some(t) => {
            let key: Vec<char> = t.0;
            let v: usize = t.1;
            if v < i {
                return None;
            }
            let choices_w: Vec<char> = vec!['c', 'h', 'o', 'i', 'c', 'e', 's'];
            let error_w: Vec<char> = vec!['e', 'r', 'r', 'o', 'r'];
            proof {
                assert(choices_w@ =~= seq!['c', 'h', 'o', 'i', 'c', 'e', 's']);
                assert(error_w@ =~= seq!['e', 'r', 'r', 'o', 'r']);
            }
            if chars_eq(&key, &choices_w) && ch.is_none() {
                match parse_choices_at(s, v) {
                    None => None,
                    Some(p) => {
                        if p.1 > i {
                            resp_members_at(s, p.1, false, Some(p.0), er)
                        } else {
                            None
                        }
                    },
                }
            } else if chars_eq(&key, &error_w) && er.is_none() {
                match parse_error_obj_at(s, v) {
                    None => None,
                    Some(p) => {
                        if p.1 > i {
                            resp_members_at(s, p.1, false, ch, Some(p.0))
                        } else {
                            None
                        }
                    },
                }
            } else {
                match skip_value_at(s, v) {
                    None => None,
                    Some(end) => {
                        if end > i {
                            resp_members_at(s, end, false, ch, er)
                        } else {
                            None
                        }
                    },
                }
            }
        },
    }
}

/// Parses a whole response body; exactly [`spec_parse_response`].
pub fn parse_chat_response(body: &str) -> (r: Option<ChatResponse>)
    ensures
        match spec_parse_response(body@) {
            Some(t) => r matches Some(resp) && choices_view(resp.choices@) == t.0 && (match resp
                .error {
                Some(e) => t.1 == Some(e.message@),
                None => t.1 is None,
            }),
            None => r is None,
        },
{
    let s: Vec<char> = str_to_chars(body);
    let i: usize = ws(&s, 0);
    if !(i < s.len() && s[i] == '{') {
        return None;
    }
    match resp_members_at(&s, i + 1, true, None, None) {
        None => None,
        Some(t) => {
            let k: usize = ws(&s, t.1);
            if k == s.len() {
                let choices: Vec<ChatChoice> = match t.0.0 {
                    Some(list) => list,
                    None => Vec::new(),
                };
                let error: Option<ApiError> = match t.0.1 {
                    Some(m) => Some(ApiError { message: m }),
                    None => None,
                };
                proof {
                    assert(choices_view(Seq::<ChatChoice>::empty())
                        =~= Seq::<(Seq<char>, Seq<char>)>::empty());
                }
                Some(ChatResponse { choices, error })
            } else {
                None
            }
        },
    }
}

/// Decides one HTTP answer exactly as the contract says: a failing
/// status is an API error carrying the raw body; a body that does not
/// parse is a parse error; a parsed body with an error member is an
/// API error carrying that message even under a success status; no
/// choices is an empty response; otherwise the first choice's content.
pub fn extract_completion(status: u16, body: &str) -> (r: Result<String, ClientError>)
    ensures
        !(200 <= status && status < 300) ==> (r matches Err(e) && e matches ClientError::Api {
            status: st,
            message: m,
        } && st == status && m@ == body@),
        (200 <= status && status < 300) ==> match spec_parse_response(body@) {
            None => r matches Err(e) && e is ResponseParse,
            Some(t) => match t.1 {
                Some(m) => r matches Err(e) && e matches ClientError::Api {
                    status: st,
                    message: msg,
                } && st == status && msg@ == m,
                None => if t.0.len() == 0 {
                    r matches Err(e) && e is EmptyResponse
                } else {
                    r matches Ok(text) && text@ == t.0[0].1
                },
            },
        },
{
    if !(status >= 200 && status < 300) {
        return Err(ClientError::Api { status, message: String::from_str(body) });
    }
    match parse_chat_response(body) {
        None => Err(ClientError::ResponseParse),
        Some(resp) => {
            match resp.error {
                Some(e) => Err(ClientError::Api { status, message: e.message }),
                None => {
                    if resp.choices.len() == 0 {
                        Err(ClientError::EmptyResponse)
                    } else {
                        proof {
                            let ghost t = spec_parse_response(body@)->Some_0;
                            assert(t.0[0] == choices_view(resp.choices@)[0]);
                        }
                        Ok(resp.choices[0].message.content.clone())
                    }
                },
            }
        },
    }
}

} // verus!
