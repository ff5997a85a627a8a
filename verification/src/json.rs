//! Parsing the JSON configuration text into link specifications.
//!
//! The configuration format is a JSON array of objects with a `name` field
//! (a string), a `type` field (the tag `"File"` or `"Directory"`), and
//! optional `source_location` and `target_location` fields (each a string or
//! `null`). Parsing happens in two verified passes: a tokenizer that turns
//! the character sequence into brackets, braces, commas, colons, string
//! literals and `null` literals, and a parser that walks the tokens with a
//! one-token-lookahead state machine and checks the schema as it goes. Each
//! pass is specified by a spec-level state machine that consumes exactly one
//! character (or token) per step; the executable functions return exactly
//! what those spec functions denote. Any text the machines reject — which
//! covers both malformed JSON and schema mismatches such as an unknown field,
//! a duplicate field, a wrong value type or an unknown kind tag — is a
//! `ParseError`.
//!
//! Two deliberate policy choices, both enforced by the spec machines:
//! unknown members are rejected rather than ignored — the schema names four
//! members and this loader accepts exactly those — and `\uXXXX` escapes are
//! decoded for every code point of the basic multilingual plane but rejected
//! for surrogates, so an astral-plane character can stand in a configuration
//! only as itself (the text is read as characters, so that loses nothing),
//! not as an escaped surrogate pair.

use vstd::prelude::*;

use crate::config::{LinkKind, LinkSpec, SetupError, SpecEntry};

verus! {

/// Relies on alloc's `String::push`: appends the given character to the end
/// of the string.
pub assume_specification[ String::push ](s: &mut String, ch: char)
    ensures
        final(s)@ == old(s)@.push(ch),
;

/// The character with the given code point: every value below the surrogate
/// range, and every value from the end of the surrogate range up to the
/// largest code point, names exactly one.
pub open spec fn code_point_char(v: int) -> Option<char> {
    if (0 <= v && v < 0xD800) || (0xE000 <= v && v <= 0x10FFFF) {
        Some(v as char)
    } else {
        None
    }
}

/// Relies on `char::from_u32`: `Some` exactly for valid code points — every
/// value outside the surrogate range and at most the largest code point —
/// and the character returned is the one with that code point.
pub assume_specification[ char::from_u32 ](v: u32) -> (r: Option<char>)
    ensures
        r == code_point_char(v as int),
;

// ---------------------------------------------------------------------------
// Tokens
// ---------------------------------------------------------------------------

/// One lexical token of the configuration format.
pub enum Token {
    LBracket,
    RBracket,
    LBrace,
    RBrace,
    Comma,
    Colon,
    Null,
    Str(String),
}

/// The mathematical model of a token.
pub ghost enum Tok {
    LBracket,
    RBracket,
    LBrace,
    RBrace,
    Comma,
    Colon,
    Null,
    Str(Seq<char>),
}

impl View for Token {
    type V = Tok;

    open spec fn view(&self) -> Tok {
        match self {
            Token::LBracket => Tok::LBracket,
            Token::RBracket => Tok::RBracket,
            Token::LBrace => Tok::LBrace,
            Token::RBrace => Tok::RBrace,
            Token::Comma => Tok::Comma,
            Token::Colon => Tok::Colon,
            Token::Null => Tok::Null,
            Token::Str(s) => Tok::Str(s@),
        }
    }
}

impl DeepView for Token {
    type V = Tok;

    open spec fn deep_view(&self) -> Tok {
        self.view()
    }
}

// ---------------------------------------------------------------------------
// The tokenizer
// ---------------------------------------------------------------------------

/// JSON whitespace.
pub open spec fn is_ws(c: char) -> bool {
    c == ' ' || c == '\n' || c == '\t' || c == '\r'
}

/// The value of a hexadecimal digit, in either case, or `None`.
pub open spec fn hex_digit_val(c: char) -> Option<int> {
    let v = c as u32 as int;
    if 0x30 <= v && v <= 0x39 {
        Some(v - 0x30)
    } else if 0x41 <= v && v <= 0x46 {
        Some(v - 0x41 + 10)
    } else if 0x61 <= v && v <= 0x66 {
        Some(v - 0x61 + 10)
    } else {
        None
    }
}

/// Read one hexadecimal digit, as [`hex_digit_val`] says.
fn hex_digit(c: char) -> (r: Option<u32>)
    ensures
        match r {
            Some(d) => hex_digit_val(c) == Some(d as int) && d < 16,
            None => hex_digit_val(c) is None,
        },
{
    let v = c as u32;
    if 0x30 <= v && v <= 0x39 {
        Some(v - 0x30)
    } else if 0x41 <= v && v <= 0x46 {
        Some(v - 0x41 + 10)
    } else if 0x61 <= v && v <= 0x66 {
        Some(v - 0x61 + 10)
    } else {
        None
    }
}

/// The character a one-letter escape sequence `\c` inside a string literal
/// stands for, or `None` when `\c` is not an accepted escape. (`\u` starts a
/// four-digit code point escape instead and is handled by the tokenizer's
/// own states.)
pub open spec fn escape_char(c: char) -> Option<char> {
    if c == '"' {
        Some('"')
    } else if c == '\\' {
        Some('\\')
    } else if c == '/' {
        Some('/')
    } else if c == 'n' {
        Some('\n')
    } else if c == 't' {
        Some('\t')
    } else if c == 'r' {
        Some('\r')
    } else if c == 'b' {
        Some('\u{8}')
    } else if c == 'f' {
        Some('\u{c}')
    } else {
        None
    }
}

/// The tokenizer's state: between tokens, inside a string literal (with the
/// content read so far), after a backslash inside a string literal, one to
/// four digits into a `\uXXXX` escape (with the code point value read so
/// far), or one, two or three characters into a `null` literal.
pub ghost enum LexSt {
    Normal,
    InStr(Seq<char>),
    Esc(Seq<char>),
    Hex1(Seq<char>),
    Hex2(Seq<char>, int),
    Hex3(Seq<char>, int),
    Hex4(Seq<char>, int),
    NullU,
    NullL,
    NullLL,
}

/// The tokenizer as a spec-level state machine: reading `s` from position
/// `i` in state `st` with the tokens `toks` already produced, the tokens of
/// the whole text, or `None` when the text is not a sequence of tokens of
/// the configuration format. Each step consumes exactly one character.
pub open spec fn spec_lex(s: Seq<char>, i: int, st: LexSt, toks: Seq<Tok>) -> Option<Seq<Tok>>
    decreases s.len() - i,
{
    if i < 0 || i >= s.len() {
        match st {
            LexSt::Normal => Some(toks),
            _ => None,
        }
    } else {
        let c = s[i];
        match st {
            LexSt::Normal => {
                if is_ws(c) {
                    spec_lex(s, i + 1, LexSt::Normal, toks)
                } else if c == '[' {
                    spec_lex(s, i + 1, LexSt::Normal, toks.push(Tok::LBracket))
                } else if c == ']' {
                    spec_lex(s, i + 1, LexSt::Normal, toks.push(Tok::RBracket))
                } else if c == '{' {
                    spec_lex(s, i + 1, LexSt::Normal, toks.push(Tok::LBrace))
                } else if c == '}' {
                    spec_lex(s, i + 1, LexSt::Normal, toks.push(Tok::RBrace))
                } else if c == ',' {
                    spec_lex(s, i + 1, LexSt::Normal, toks.push(Tok::Comma))
                } else if c == ':' {
                    spec_lex(s, i + 1, LexSt::Normal, toks.push(Tok::Colon))
                } else if c == '"' {
                    spec_lex(s, i + 1, LexSt::InStr(Seq::empty()), toks)
                } else if c == 'n' {
                    spec_lex(s, i + 1, LexSt::NullU, toks)
                } else {
                    None
                }
            },
            LexSt::NullU => {
                if c == 'u' {
                    spec_lex(s, i + 1, LexSt::NullL, toks)
                } else {
                    None
                }
            },
            LexSt::NullL => {
                if c == 'l' {
                    spec_lex(s, i + 1, LexSt::NullLL, toks)
                } else {
                    None
                }
            },
            LexSt::NullLL => {
                if c == 'l' {
                    spec_lex(s, i + 1, LexSt::Normal, toks.push(Tok::Null))
                } else {
                    None
                }
            },
            LexSt::InStr(acc) => {
                if c == '"' {
                    spec_lex(s, i + 1, LexSt::Normal, toks.push(Tok::Str(acc)))
                } else if c == '\\' {
                    spec_lex(s, i + 1, LexSt::Esc(acc), toks)
                } else if (c as u32) >= 0x20 {
                    spec_lex(s, i + 1, LexSt::InStr(acc.push(c)), toks)
                } else {
                    None
                }
            },
            LexSt::Esc(acc) => {
                if c == 'u' {
                    spec_lex(s, i + 1, LexSt::Hex1(acc), toks)
                } else {
                    match escape_char(c) {
                        Some(e) => spec_lex(s, i + 1, LexSt::InStr(acc.push(e)), toks),
                        None => None,
                    }
                }
            },
            LexSt::Hex1(acc) => {
                match hex_digit_val(c) {
                    Some(d) => spec_lex(s, i + 1, LexSt::Hex2(acc, d), toks),
                    None => None,
                }
            },
            LexSt::Hex2(acc, v) => {
                match hex_digit_val(c) {
                    Some(d) => spec_lex(s, i + 1, LexSt::Hex3(acc, v * 16 + d), toks),
                    None => None,
                }
            },
            LexSt::Hex3(acc, v) => {
                match hex_digit_val(c) {
                    Some(d) => spec_lex(s, i + 1, LexSt::Hex4(acc, v * 16 + d), toks),
                    None => None,
                }
            },
            LexSt::Hex4(acc, v) => {
                match hex_digit_val(c) {
                    Some(d) => match code_point_char(v * 16 + d) {
                        Some(decoded) => spec_lex(s, i + 1, LexSt::InStr(acc.push(decoded)), toks),
                        None => None,
                    },
                    None => None,
                }
            },
        }
    }
}

/// The executable tokenizer's state tag; the string accumulator and the
/// partial code point value live in separate variables.
enum LexTag {
    Normal,
    InStr,
    Esc,
    Hex1,
    Hex2,
    Hex3,
    Hex4,
    NullU,
    NullL,
    NullLL,
}

/// The spec state an executable tag and its companion variables stand for.
spec fn lex_st_of(tag: LexTag, acc: Seq<char>, v: int) -> LexSt {
    match tag {
        LexTag::Normal => LexSt::Normal,
        LexTag::InStr => LexSt::InStr(acc),
        LexTag::Esc => LexSt::Esc(acc),
        LexTag::Hex1 => LexSt::Hex1(acc),
        LexTag::Hex2 => LexSt::Hex2(acc, v),
        LexTag::Hex3 => LexSt::Hex3(acc, v),
        LexTag::Hex4 => LexSt::Hex4(acc, v),
        LexTag::NullU => LexSt::NullU,
        LexTag::NullL => LexSt::NullL,
        LexTag::NullLL => LexSt::NullLL,
    }
}

/// Tokenize the configuration text.
pub fn lex_chars(cs: &Vec<char>) -> (r: Option<Vec<Token>>)
    ensures
        match r {
            Some(toks) => spec_lex(cs@, 0, LexSt::Normal, Seq::empty()) == Some(toks.deep_view()),
            None => spec_lex(cs@, 0, LexSt::Normal, Seq::empty()) is None,
        },
{
    let mut i: usize = 0;
    let mut tag = LexTag::Normal;
    let mut acc: String = String::new();
    let mut hexval: u32 = 0;
    let mut toks: Vec<Token> = Vec::new();
    proof {
        assert(toks.deep_view() =~= Seq::<Tok>::empty());
    }
    while i < cs.len()
        invariant
            i <= cs@.len(),
            spec_lex(cs@, 0, LexSt::Normal, Seq::empty()) == spec_lex(
                cs@,
                i as int,
                lex_st_of(tag, acc@, hexval as int),
                toks.deep_view(),
            ),
            (tag is Normal || tag is NullU || tag is NullL || tag is NullLL) ==> acc@
                == Seq::<char>::empty(),
            tag is Hex2 ==> hexval < 0x10,
            tag is Hex3 ==> hexval < 0x100,
            tag is Hex4 ==> hexval < 0x1000,
        decreases cs@.len() - i,
    {
        let c = cs[i];
        match tag {
            LexTag::Normal => {
                if c == ' ' || c == '\n' || c == '\t' || c == '\r' {
                } else if c == '[' {
                    let ghost old_toks = toks.deep_view();
                    toks.push(Token::LBracket);
                    proof {
                        assert(toks.deep_view() =~= old_toks.push(Tok::LBracket));
                    }
                } else if c == ']' {
                    let ghost old_toks = toks.deep_view();
                    toks.push(Token::RBracket);
                    proof {
                        assert(toks.deep_view() =~= old_toks.push(Tok::RBracket));
                    }
                } else if c == '{' {
                    let ghost old_toks = toks.deep_view();
                    toks.push(Token::LBrace);
                    proof {
                        assert(toks.deep_view() =~= old_toks.push(Tok::LBrace));
                    }
                } else if c == '}' {
                    let ghost old_toks = toks.deep_view();
                    toks.push(Token::RBrace);
                    proof {
                        assert(toks.deep_view() =~= old_toks.push(Tok::RBrace));
                    }
                } else if c == ',' {
                    let ghost old_toks = toks.deep_view();
                    toks.push(Token::Comma);
                    proof {
                        assert(toks.deep_view() =~= old_toks.push(Tok::Comma));
                    }
                } else if c == ':' {
                    let ghost old_toks = toks.deep_view();
                    toks.push(Token::Colon);
                    proof {
                        assert(toks.deep_view() =~= old_toks.push(Tok::Colon));
                    }
                } else if c == '"' {
                    tag = LexTag::InStr;
                } else if c == 'n' {
                    tag = LexTag::NullU;
                } else {
                    return None;
                }
            },
            LexTag::NullU => {
                if c == 'u' {
                    tag = LexTag::NullL;
                } else {
                    return None;
                }
            },
            LexTag::NullL => {
                if c == 'l' {
                    tag = LexTag::NullLL;
                } else {
                    return None;
                }
            },
            LexTag::NullLL => {
                if c == 'l' {
                    let ghost old_toks = toks.deep_view();
                    toks.push(Token::Null);
                    tag = LexTag::Normal;
                    proof {
                        assert(toks.deep_view() =~= old_toks.push(Tok::Null));
                    }
                } else {
                    return None;
                }
            },
            LexTag::InStr => {
                if c == '"' {
                    let ghost old_toks = toks.deep_view();
                    let done = acc;
                    acc = String::new();
                    let ghost content = done@;
                    toks.push(Token::Str(done));
                    tag = LexTag::Normal;
                    proof {
                        assert(toks.deep_view() =~= old_toks.push(Tok::Str(content)));
                    }
                } else if c == '\\' {
                    tag = LexTag::Esc;
                } else if (c as u32) >= 0x20 {
                    acc.push(c);
                } else {
                    return None;
                }
            },
            LexTag::Esc => {
                if c == 'u' {
                    tag = LexTag::Hex1;
                } else if c == '"' {
                    acc.push('"');
                    tag = LexTag::InStr;
                } else if c == '\\' {
                    acc.push('\\');
                    tag = LexTag::InStr;
                } else if c == '/' {
                    acc.push('/');
                    tag = LexTag::InStr;
                } else if c == 'n' {
                    acc.push('\n');
                    tag = LexTag::InStr;
                } else if c == 't' {
                    acc.push('\t');
                    tag = LexTag::InStr;
                } else if c == 'r' {
                    acc.push('\r');
                    tag = LexTag::InStr;
                } else if c == 'b' {
                    acc.push('\u{8}');
                    tag = LexTag::InStr;
                } else if c == 'f' {
                    acc.push('\u{c}');
                    tag = LexTag::InStr;
                } else {
                    return None;
                }
            },
            LexTag::Hex1 => {
                match hex_digit(c) {
                    Some(d) => {
                        hexval = d;
                        tag = LexTag::Hex2;
                    },
                    None => {
                        return None;
                    },
                }
            },
            LexTag::Hex2 => {
                match hex_digit(c) {
                    Some(d) => {
                        hexval = hexval * 16 + d;
                        tag = LexTag::Hex3;
                    },
                    None => {
                        return None;
                    },
                }
            },
            LexTag::Hex3 => {
                match hex_digit(c) {
                    Some(d) => {
                        hexval = hexval * 16 + d;
                        tag = LexTag::Hex4;
                    },
                    None => {
                        return None;
                    },
                }
            },
            LexTag::Hex4 => {
                match hex_digit(c) {
                    Some(d) => {
                        let code = hexval * 16 + d;
                        match char::from_u32(code) {
                            Some(decoded) => {
                                acc.push(decoded);
                                hexval = 0;
                                tag = LexTag::InStr;
                            },
                            None => {
                                return None;
                            },
                        }
                    },
                    None => {
                        return None;
                    },
                }
            },
        }
        i += 1;
    }
    match tag {
        LexTag::Normal => Some(toks),
        _ => None,
    }
}

// ---------------------------------------------------------------------------
// The parser
// ---------------------------------------------------------------------------

/// The fields of one configuration object gathered so far. The outer
/// `Option` on the locations records whether the field occurred at all; the
/// inner one distinguishes a string value from `null`.
pub ghost struct Partial {
    pub name: Option<Seq<char>>,
    pub kind: Option<LinkKind>,
    pub source: Option<Option<Seq<char>>>,
    pub target: Option<Option<Seq<char>>>,
}

/// The state before any field of an object has been read.
pub open spec fn empty_partial() -> Partial {
    Partial { name: None, kind: None, source: None, target: None }
}

/// Record one `key: value` member in the gathered fields, or `None` when
/// the member breaks the schema: an unknown key, a repeated key, `null`
/// where a string is required, or an unknown kind tag.
pub open spec fn spec_add_field(p: Partial, k: Seq<char>, v: Option<Seq<char>>) -> Option<
    Partial,
> {
    if k == "name"@ {
        match v {
            Some(s) => if p.name is None {
                Some(Partial { name: Some(s), ..p })
            } else {
                None
            },
            None => None,
        }
    } else if k == "type"@ {
        match v {
            Some(s) => if p.kind is Some {
                None
            } else if s == "File"@ {
                Some(Partial { kind: Some(LinkKind::File), ..p })
            } else if s == "Directory"@ {
                Some(Partial { kind: Some(LinkKind::Directory), ..p })
            } else {
                None
            },
            None => None,
        }
    } else if k == "source_location"@ {
        if p.source is None {
            Some(Partial { source: Some(v), ..p })
        } else {
            None
        }
    } else if k == "target_location"@ {
        if p.target is None {
            Some(Partial { target: Some(v), ..p })
        } else {
            None
        }
    } else {
        None
    }
}

/// A location field that was absent or `null` resolves to no location.
pub open spec fn flatten_location(o: Option<Option<Seq<char>>>) -> Option<Seq<char>> {
    match o {
        Some(Some(s)) => Some(s),
        _ => None,
    }
}

/// Close one object: `name` and `type` are mandatory, the locations are
/// optional.
pub open spec fn spec_finish_entry(p: Partial) -> Option<SpecEntry> {
    match (p.name, p.kind) {
        (Some(n), Some(k)) => Some(
            SpecEntry {
                name: n,
                kind: k,
                source_location: flatten_location(p.source),
                target_location: flatten_location(p.target),
            },
        ),
        _ => None,
    }
}

/// The parser's state: what the next token must be, together with the
/// entries finished so far and, inside an object, the fields gathered so
/// far and the key whose value is awaited.
pub ghost enum PSt {
    /// Expecting the opening `[`.
    Start,
    /// Just after `[`: expecting `{` or, for an empty configuration, `]`.
    First,
    /// Just after a `,` between entries: expecting `{`.
    ObjReq(Seq<SpecEntry>),
    /// Inside an object, expecting a key string.
    ObjKey(Seq<SpecEntry>, Partial),
    /// After a key, expecting `:`.
    ObjColon(Seq<SpecEntry>, Partial, Seq<char>),
    /// After `key:`, expecting a string or `null` value.
    ObjVal(Seq<SpecEntry>, Partial, Seq<char>),
    /// After a member, expecting `,` or `}`.
    MemberEnd(Seq<SpecEntry>, Partial),
    /// After an object, expecting `,` or `]`.
    AfterObj(Seq<SpecEntry>),
    /// After the closing `]`: no token may follow.
    End(Seq<SpecEntry>),
}

/// The parser as a spec-level state machine over the token sequence: the
/// entries of the whole configuration, or `None` when the tokens do not
/// form an array of schema-conforming objects. Each step consumes exactly
/// one token.
pub open spec fn spec_parse_toks(toks: Seq<Tok>, i: int, st: PSt) -> Option<Seq<SpecEntry>>
    decreases toks.len() - i,
{
    if i < 0 || i >= toks.len() {
        match st {
            PSt::End(es) => Some(es),
            _ => None,
        }
    } else {
        let t = toks[i];
        match st {
            PSt::Start => match t {
                Tok::LBracket => spec_parse_toks(toks, i + 1, PSt::First),
                _ => None,
            },
            PSt::First => match t {
                Tok::RBracket => spec_parse_toks(toks, i + 1, PSt::End(Seq::empty())),
                Tok::LBrace => spec_parse_toks(
                    toks,
                    i + 1,
                    PSt::ObjKey(Seq::empty(), empty_partial()),
                ),
                _ => None,
            },
            PSt::ObjReq(es) => match t {
                Tok::LBrace => spec_parse_toks(toks, i + 1, PSt::ObjKey(es, empty_partial())),
                _ => None,
            },
            PSt::ObjKey(es, p) => match t {
                Tok::Str(k) => spec_parse_toks(toks, i + 1, PSt::ObjColon(es, p, k)),
                _ => None,
            },
            PSt::ObjColon(es, p, k) => match t {
                Tok::Colon => spec_parse_toks(toks, i + 1, PSt::ObjVal(es, p, k)),
                _ => None,
            },
            PSt::ObjVal(es, p, k) => match t {
                Tok::Str(v) => match spec_add_field(p, k, Some(v)) {
                    Some(p2) => spec_parse_toks(toks, i + 1, PSt::MemberEnd(es, p2)),
                    None => None,
                },
                Tok::Null => match spec_add_field(p, k, None) {
                    Some(p2) => spec_parse_toks(toks, i + 1, PSt::MemberEnd(es, p2)),
                    None => None,
                },
                _ => None,
            },
            PSt::MemberEnd(es, p) => match t {
                Tok::Comma => spec_parse_toks(toks, i + 1, PSt::ObjKey(es, p)),
                Tok::RBrace => match spec_finish_entry(p) {
                    Some(e) => spec_parse_toks(toks, i + 1, PSt::AfterObj(es.push(e))),
                    None => None,
                },
                _ => None,
            },
            PSt::AfterObj(es) => match t {
                Tok::Comma => spec_parse_toks(toks, i + 1, PSt::ObjReq(es)),
                Tok::RBracket => spec_parse_toks(toks, i + 1, PSt::End(es)),
                _ => None,
            },
            PSt::End(es) => None,
        }
    }
}

/// What a whole configuration text denotes: its entries, or `None` when the
/// text is rejected.
pub open spec fn spec_parse_config(s: Seq<char>) -> Option<Seq<SpecEntry>> {
    match spec_lex(s, 0, LexSt::Normal, Seq::empty()) {
        Some(toks) => spec_parse_toks(toks, 0, PSt::Start),
        None => None,
    }
}

/// The executable counterpart of [`Partial`].
struct PartialEntry {
    name: Option<String>,
    kind: Option<LinkKind>,
    source: Option<Option<String>>,
    target: Option<Option<String>>,
}

impl View for PartialEntry {
    type V = Partial;

    closed spec fn view(&self) -> Partial {
        Partial {
            name: self.name.deep_view(),
            kind: self.kind,
            source: self.source.deep_view(),
            target: self.target.deep_view(),
        }
    }
}

impl PartialEntry {
    fn empty() -> (r: PartialEntry)
        ensures
            r@ == empty_partial(),
    {
        PartialEntry { name: None, kind: None, source: None, target: None }
    }
}

/// Record one member in the gathered fields, as [`spec_add_field`] says.
fn apply_field(p: PartialEntry, k: &String, v: Option<String>) -> (r: Option<PartialEntry>)
    ensures
        match r {
            Some(p2) => spec_add_field(p@, k@, v.deep_view()) == Some(p2@),
            None => spec_add_field(p@, k@, v.deep_view()) is None,
        },
{
    if *k == String::from_str("name") {
        match v {
            Some(s) => if p.name.is_none() {
                Some(PartialEntry { name: Some(s), ..p })
            } else {
                None
            },
            None => None,
        }
    } else if *k == String::from_str("type") {
        match v {
            Some(s) => if p.kind.is_some() {
                None
            } else if s == String::from_str("File") {
                Some(PartialEntry { kind: Some(LinkKind::File), ..p })
            } else if s == String::from_str("Directory") {
                Some(PartialEntry { kind: Some(LinkKind::Directory), ..p })
            } else {
                None
            },
            None => None,
        }
    } else if *k == String::from_str("source_location") {
        if p.source.is_none() {
            Some(PartialEntry { source: Some(v), ..p })
        } else {
            None
        }
    } else if *k == String::from_str("target_location") {
        if p.target.is_none() {
            Some(PartialEntry { target: Some(v), ..p })
        } else {
            None
        }
    } else {
        None
    }
}

/// Close one object, as [`spec_finish_entry`] says.
fn finish_entry(p: PartialEntry) -> (r: Option<LinkSpec>)
    ensures
        match r {
            Some(e) => spec_finish_entry(p@) == Some(e@),
            None => spec_finish_entry(p@) is None,
        },
{
    match (p.name, p.kind) {
        (Some(n), Some(k)) => {
            let source_location = match p.source {
                Some(Some(s)) => Some(s),
                _ => None,
            };
            let target_location = match p.target {
                Some(Some(s)) => Some(s),
                _ => None,
            };
            Some(LinkSpec { name: n, kind: k, source_location, target_location })
        },
        _ => None,
    }
}

/// The executable parser's state tag; the gathered entries, fields and key
/// live in separate variables.
enum ParseTag {
    Start,
    First,
    ObjReq,
    ObjKey,
    ObjColon,
    ObjVal,
    MemberEnd,
    AfterObj,
    End,
}

/// The spec state an executable tag and its companion variables stand for.
spec fn parse_st_of(tag: ParseTag, es: Seq<SpecEntry>, p: Partial, k: Seq<char>) -> PSt {
    match tag {
        ParseTag::Start => PSt::Start,
        ParseTag::First => PSt::First,
        ParseTag::ObjReq => PSt::ObjReq(es),
        ParseTag::ObjKey => PSt::ObjKey(es, p),
        ParseTag::ObjColon => PSt::ObjColon(es, p, k),
        ParseTag::ObjVal => PSt::ObjVal(es, p, k),
        ParseTag::MemberEnd => PSt::MemberEnd(es, p),
        ParseTag::AfterObj => PSt::AfterObj(es),
        ParseTag::End => PSt::End(es),
    }
}

/// Parse a token sequence into link specifications.
pub fn parse_tokens(toks: &Vec<Token>) -> (r: Option<Vec<LinkSpec>>)
    ensures
        match r {
            Some(v) => spec_parse_toks(toks.deep_view(), 0, PSt::Start) == Some(v.deep_view()),
            None => spec_parse_toks(toks.deep_view(), 0, PSt::Start) is None,
        },
{
    let mut i: usize = 0;
    let mut tag = ParseTag::Start;
    let mut entries: Vec<LinkSpec> = Vec::new();
    let mut partial = PartialEntry::empty();
    let mut key: String = String::new();
    proof {
        assert(entries.deep_view() =~= Seq::<SpecEntry>::empty());
    }
    while i < toks.len()
        invariant
            i <= toks@.len(),
            spec_parse_toks(toks.deep_view(), 0, PSt::Start) == spec_parse_toks(
                toks.deep_view(),
                i as int,
                parse_st_of(tag, entries.deep_view(), partial@, key@),
            ),
            (tag is Start || tag is First) ==> entries.deep_view()
                == Seq::<SpecEntry>::empty() && partial@ == empty_partial(),
        decreases toks@.len() - i,
    {
        let t = &toks[i];
        match tag {
            ParseTag::Start => match t {
                Token::LBracket => {
                    tag = ParseTag::First;
                },
                _ => {
                    return None;
                },
            },
            ParseTag::First => match t {
                Token::RBracket => {
                    tag = ParseTag::End;
                },
                Token::LBrace => {
                    tag = ParseTag::ObjKey;
                },
                _ => {
                    return None;
                },
            },
            ParseTag::ObjReq => match t {
                Token::LBrace => {
                    partial = PartialEntry::empty();
                    tag = ParseTag::ObjKey;
                },
                _ => {
                    return None;
                },
            },
            ParseTag::ObjKey => match t {
                Token::Str(s) => {
                    key = s.clone();
                    tag = ParseTag::ObjColon;
                },
                _ => {
                    return None;
                },
            },
            ParseTag::ObjColon => match t {
                Token::Colon => {
                    tag = ParseTag::ObjVal;
                },
                _ => {
                    return None;
                },
            },
            ParseTag::ObjVal => match t {
                Token::Str(s) => {
                    match apply_field(partial, &key, Some(s.clone())) {
                        Some(p2) => {
                            partial = p2;
                            tag = ParseTag::MemberEnd;
                        },
                        None => {
                            return None;
                        },
                    }
                },
                Token::Null => {
                    match apply_field(partial, &key, None) {
                        Some(p2) => {
                            partial = p2;
                            tag = ParseTag::MemberEnd;
                        },
                        None => {
                            return None;
                        },
                    }
                },
                _ => {
                    return None;
                },
            },
            ParseTag::MemberEnd => match t {
                Token::Comma => {
                    tag = ParseTag::ObjKey;
                },
                Token::RBrace => {
                    match finish_entry(partial) {
                        Some(e) => {
                            let ghost old_entries = entries.deep_view();
                            let ghost e_v = e@;
                            entries.push(e);
                            partial = PartialEntry::empty();
                            tag = ParseTag::AfterObj;
                            proof {
                                assert(entries.deep_view() =~= old_entries.push(e_v));
                            }
                        },
                        None => {
                            return None;
                        },
                    }
                },
                _ => {
                    return None;
                },
            },
            ParseTag::AfterObj => match t {
                Token::Comma => {
                    tag = ParseTag::ObjReq;
                },
                Token::RBracket => {
                    tag = ParseTag::End;
                },
                _ => {
                    return None;
                },
            },
            ParseTag::End => {
                return None;
            },
        }
        i += 1;
    }
    match tag {
        ParseTag::End => Some(entries),
        _ => None,
    }
}

/// The characters of a string, as a vector.
pub fn chars_of(text: &str) -> (r: Vec<char>)
    ensures
        r@ == text@,
{
    let n = text.unicode_len();
    let mut v: Vec<char> = Vec::new();
    let mut i: usize = 0;
    while i < n
        invariant
            i <= n,
            n == text@.len(),
            v@ == text@.subrange(0, i as int),
        decreases n - i,
    {
        v.push(text.get_char(i));
        i += 1;
        proof {
            assert(v@ =~= text@.subrange(0, i as int));
        }
    }
    proof {
        assert(v@ =~= text@);
    }
    v
}

/// Parse a whole configuration text: the entries [`spec_parse_config`]
/// denotes, or a `ParseError` exactly when the text is rejected.
pub fn parse_config(text: &str) -> (r: Result<Vec<LinkSpec>, SetupError>)
    ensures
        spec_parse_config(text@) matches Some(es) ==> (r matches Ok(v) && v.deep_view() == es),
        spec_parse_config(text@) is None ==> r == Err::<Vec<LinkSpec>, SetupError>(
            SetupError::ParseError,
        ),
{
    let cs = chars_of(text);
    match lex_chars(&cs) {
        None => Err(SetupError::ParseError),
        Some(toks) => match parse_tokens(&toks) {
            None => Err(SetupError::ParseError),
            Some(v) => Ok(v),
        },
    }
}

} // verus!
