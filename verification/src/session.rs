//! Session keys: one stable key per conversation on each channel.
use vstd::prelude::*;

use crate::text::{
    chars_of, join_chars, join_with, map_chars, map_seq, push_str, split_chars, split_class,
    string_of, trim_chars, trim_class, trim_ws, CharClass, CharMap,
};
use crate::types::SourceType;

verus! {

/// A key component: white space trimmed, then `' '` and `':'` replaced with `_`.
pub open spec fn component_text(value: Seq<char>) -> Seq<char> {
    map_seq(CharMap::SpaceColonToUnderscore, trim_ws(value))
}

/// The pieces of a `/`-split path that `Path::components` keeps as normal
/// components: empty pieces are dropped, and so is `.` except as the very first piece.
pub open spec fn kept_path_pieces(parts: Seq<Seq<char>>) -> Seq<Seq<char>>
    decreases parts.len(),
{
    if parts.len() == 0 {
        Seq::<Seq<char>>::empty()
    } else {
        let r = kept_path_pieces(parts.drop_last());
        let p = parts.last();
        if p.len() > 0 && (p != seq!['.'] || parts.len() == 1) {
            r.push(p)
        } else {
            r
        }
    }
}

/// The components of a Unix path, as `Path::components` yields them, each by
/// its text: the root `/` first for an absolute path, then the kept pieces.
pub open spec fn path_components(path: Seq<char>) -> Seq<Seq<char>> {
    let pieces = kept_path_pieces(split_class(path, CharClass::Exactly('/')));
    if path.len() > 0 && path[0] == '/' {
        seq![seq!['/']] + pieces
    } else {
        pieces
    }
}

/// A path component of a key: the path's components joined with `/`,
/// `/` trimmed from both ends, then `' '` and `':'` replaced with `_`.
pub open spec fn path_component_text(path: Seq<char>) -> Seq<char> {
    map_seq(
        CharMap::SpaceColonToUnderscore,
        trim_class(join_with(path_components(path), seq!['/']), CharClass::Exactly('/')),
    )
}

/// `part`, or `default` when it is empty.
pub open spec fn or_default(part: Seq<char>, default: Seq<char>) -> Seq<char> {
    if part.len() > 0 {
        part
    } else {
        default
    }
}

/// `cli:<profile>:<directory>`, the directory's components joined by `/`
/// (`unknown_cwd` when there is none).
pub open spec fn cli_key(profile: Seq<char>, cwd: Option<Seq<char>>) -> Seq<char> {
    let cwd_part = match cwd {
        Some(c) => or_default(path_component_text(c), "unknown_cwd"@),
        None => "unknown_cwd"@,
    };
    "cli:"@ + component_text(profile) + ":"@ + cwd_part
}

/// `telegram:<chat>:<user>` (`unknown_user` when there is none).
pub open spec fn telegram_key(chat_id: Seq<char>, user_id: Option<Seq<char>>) -> Seq<char> {
    let user_part = match user_id {
        Some(u) => or_default(component_text(u), "unknown_user"@),
        None => "unknown_user"@,
    };
    "telegram:"@ + component_text(chat_id) + ":"@ + user_part
}

/// `web:<profile>:<browser session>` (`browser` when there is none).
pub open spec fn web_key(profile: Seq<char>, client_session_id: Option<Seq<char>>) -> Seq<char> {
    let session_part = match client_session_id {
        Some(s) => or_default(component_text(s), "browser"@),
        None => "browser"@,
    };
    "web:"@ + component_text(profile) + ":"@ + session_part
}

pub open spec fn opt_str_view(o: Option<&str>) -> Option<Seq<char>> {
    match o {
        Some(s) => Some(s@),
        None => None,
    }
}

fn normalize_component(value: &str) -> (r: Vec<char>)
    ensures
        r@ == component_text(value@),
{
    let v = chars_of(value);
    let t = trim_chars(&v, CharClass::Whitespace);
    map_chars(&t, CharMap::SpaceColonToUnderscore)
}

fn keep_path_pieces(parts: &Vec<Vec<char>>) -> (r: Vec<Vec<char>>)
    ensures
        r.deep_view() == kept_path_pieces(parts.deep_view()),
{
    let mut r: Vec<Vec<char>> = Vec::new();
    let mut i: usize = 0;
    let mut dot: Vec<char> = Vec::new();
    dot.push('.');
    assert(dot@ =~= seq!['.']);
    proof {
        assert(parts.deep_view().take(0) =~= Seq::<Seq<char>>::empty());
        assert(r.deep_view() =~= Seq::<Seq<char>>::empty());
    }
    while i < parts.len()
        invariant
            i <= parts.len(),
            dot@ == seq!['.'],
            r.deep_view() == kept_path_pieces(parts.deep_view().take(i as int)),
        decreases parts.len() - i,
    {
        proof {
            crate::text::lemma_take_push_parts(parts.deep_view(), i as int);
            crate::text::lemma_char_vec_deep(parts[i as int]);
        }
        let p = &parts[i];
        if p.len() > 0 && (!crate::text::chars_eq(p, &dot) || i == 0) {
            let ghost rv = r.deep_view();
            let q = p.clone();
            proof {
                crate::text::lemma_char_vec_deep(q);
            }
            r.push(q);
            proof {
                assert(r.deep_view() =~= rv.push(parts.deep_view()[i as int]));
            }
        }
        i = i + 1;
    }
    proof {
        assert(parts.deep_view().take(parts.len() as int) =~= parts.deep_view());
    }
    r
}

fn normalize_path_component(path: &str) -> (r: Vec<char>)
    ensures
        r@ == path_component_text(path@),
{
    let v = chars_of(path);
    let split = split_chars(&v, CharClass::Exactly('/'));
    let pieces = keep_path_pieces(&split);
    let mut components: Vec<Vec<char>> = Vec::new();
    if v.len() > 0 && v[0] == '/' {
        let mut root: Vec<char> = Vec::new();
        root.push('/');
        assert(root@ =~= seq!['/']);
        proof {
            crate::text::lemma_char_vec_deep(root);
        }
        components.push(root);
    }
    let ghost before = components.deep_view();
    let mut i: usize = 0;
    while i < pieces.len()
        invariant
            i <= pieces.len(),
            components.deep_view() == before + pieces.deep_view().take(i as int),
        decreases pieces.len() - i,
    {
        proof {
            crate::text::lemma_take_push_parts(pieces.deep_view(), i as int);
        }
        let q = pieces[i].clone();
        proof {
            crate::text::lemma_char_vec_deep(q);
            crate::text::lemma_char_vec_deep(pieces[i as int]);
        }
        let ghost cv = components.deep_view();
        components.push(q);
        proof {
            assert(components.deep_view() =~= cv.push(pieces.deep_view()[i as int]));
            assert(before + pieces.deep_view().take(i + 1) =~= (before + pieces.deep_view().take(
                i as int,
            )).push(pieces.deep_view()[i as int]));
        }
        i = i + 1;
    }
    proof {
        assert(pieces.deep_view().take(pieces.len() as int) =~= pieces.deep_view());
        if v@.len() > 0 && v@[0] == '/' {
            assert(before =~= seq![seq!['/']]);
        } else {
            assert(before =~= Seq::<Seq<char>>::empty());
            assert(before + pieces.deep_view() =~= pieces.deep_view());
        }
    }
    let mut sep: Vec<char> = Vec::new();
    sep.push('/');
    assert(sep@ =~= seq!['/']);
    let joined = join_chars(&components, &sep);
    let trimmed = trim_chars(&joined, CharClass::Exactly('/'));
    map_chars(&trimmed, CharMap::SpaceColonToUnderscore)
}

/// `cli:<profile>:<cwd>`; the cwd part is `unknown_cwd` when absent or empty.
pub fn derive_cli_session_key(profile: &str, cwd: Option<&str>) -> (key: String)
    ensures
        key@ == cli_key(profile@, opt_str_view(cwd)),
{
    let profile_part = normalize_component(profile);
    let cwd_part = match cwd {
        Some(c) => {
            let p = normalize_path_component(c);
            if p.len() > 0 {
                p
            } else {
                chars_of("unknown_cwd")
            }
        },
        None => chars_of("unknown_cwd"),
    };
    let mut r: Vec<char> = Vec::new();
    push_str(&mut r, "cli:");
    let r = crate::text::concat_chars(&r, &profile_part);
    let mut r = r;
    push_str(&mut r, ":");
    let r = crate::text::concat_chars(&r, &cwd_part);
    string_of(&r)
}

/// `telegram:<chat>:<user>`; the user part is `unknown_user` when absent or empty.
pub fn derive_telegram_session_key(chat_id: &str, user_id: Option<&str>) -> (key: String)
    ensures
        key@ == telegram_key(chat_id@, opt_str_view(user_id)),
{
    let user_part = match user_id {
        Some(u) => {
            let p = normalize_component(u);
            if p.len() > 0 {
                p
            } else {
                chars_of("unknown_user")
            }
        },
        None => chars_of("unknown_user"),
    };
    let chat_part = normalize_component(chat_id);
    let mut r: Vec<char> = Vec::new();
    push_str(&mut r, "telegram:");
    let mut r = crate::text::concat_chars(&r, &chat_part);
    push_str(&mut r, ":");
    let r = crate::text::concat_chars(&r, &user_part);
    string_of(&r)
}

/// `web:<profile>:<session>`; the session part is `browser` when absent or empty.
pub fn derive_web_session_key(profile: &str, client_session_id: Option<&str>) -> (key: String)
    ensures
        key@ == web_key(profile@, opt_str_view(client_session_id)),
{
    let session_part = match client_session_id {
        Some(s) => {
            let p = normalize_component(s);
            if p.len() > 0 {
                p
            } else {
                chars_of("browser")
            }
        },
        None => chars_of("browser"),
    };
    let profile_part = normalize_component(profile);
    let mut r: Vec<char> = Vec::new();
    push_str(&mut r, "web:");
    let mut r = crate::text::concat_chars(&r, &profile_part);
    push_str(&mut r, ":");
    let r = crate::text::concat_chars(&r, &session_part);
    string_of(&r)
}

/// The session key for a message from `source_type`: the CLI key from the
/// profile (default `default`) and cwd, the Telegram key from the chat
/// (default `unknown_chat`) and user, the web key from the profile and the
/// user id in the role of the browser session.
pub fn derive_session_key(
    source_type: SourceType,
    profile: Option<&str>,
    chat_id: Option<&str>,
    user_id: Option<&str>,
    cwd: Option<&str>,
) -> (key: String)
    ensures
        source_type is Cli ==> key@ == cli_key(
            match profile {
                Some(p) => p@,
                None => "default"@,
            },
            opt_str_view(cwd),
        ),
        source_type is Telegram ==> key@ == telegram_key(
            match chat_id {
                Some(c) => c@,
                None => "unknown_chat"@,
            },
            opt_str_view(user_id),
        ),
        source_type is Web ==> key@ == web_key(
            match profile {
                Some(p) => p@,
                None => "default"@,
            },
            opt_str_view(user_id),
        ),
{
    match source_type {
        SourceType::Cli => derive_cli_session_key(
            match profile {
                Some(p) => p,
                None => "default",
            },
            cwd,
        ),
        SourceType::Telegram => derive_telegram_session_key(
            match chat_id {
                Some(c) => c,
                None => "unknown_chat",
            },
            user_id,
        ),
        SourceType::Web => derive_web_session_key(
            match profile {
                Some(p) => p,
                None => "default",
            },
            user_id,
        ),
    }
}

} // verus!
