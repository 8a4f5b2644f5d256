use vstd::prelude::*;
use crate::json::{
    escape, escape_char, hex_digit, quote, render_items, render_member, render_members,
    render_object, render_scalar, render_wrapped, FieldView, ScalarView,
};
use crate::payload::{AccountUserPatch, DomainPatch, InstallPatch, SitePatch};

verus! {

/// The value of a lowercase hexadecimal digit, or -1.
pub open spec fn hex_value(c: char) -> int {
    if '0' <= c && c <= '9' {
        c as int - '0' as int
    } else if 'a' <= c && c <= 'f' {
        c as int - 'a' as int + 10
    } else {
        -1
    }
}

/// Reads the inside of a quoted string up to its closing quote: the text it
/// stands for, and what follows the quote.
pub open spec fn unescape(t: Seq<char>) -> Option<(Seq<char>, Seq<char>)>
    decreases t.len(),
{
    if t.len() == 0 {
        None
    } else if t[0] == '"' {
        Some((Seq::empty(), t.drop_first()))
    } else if t[0] == '\\' {
        if t.len() >= 2 && (t[1] == '"' || t[1] == '\\') {
            match unescape(t.subrange(2, t.len() as int)) {
                Some((s, rest)) => Some((seq![t[1]] + s, rest)),
                None => None,
            }
        } else if t.len() >= 6 && t[1] == 'u' && t[2] == '0' && t[3] == '0' && hex_value(t[4]) >= 0
            && hex_value(t[5]) >= 0 {
            let c = (16 * hex_value(t[4]) + hex_value(t[5])) as char;
            match unescape(t.subrange(6, t.len() as int)) {
                Some((s, rest)) => Some((seq![c] + s, rest)),
                None => None,
            }
        } else {
            None
        }
    } else {
        match unescape(t.drop_first()) {
            Some((s, rest)) => Some((seq![t[0]] + s, rest)),
            None => None,
        }
    }
}

/// Reads a quoted string at the start of `t`.
pub open spec fn parse_string(t: Seq<char>) -> Option<(Seq<char>, Seq<char>)> {
    if t.len() > 0 && t[0] == '"' {
        unescape(t.drop_first())
    } else {
        None
    }
}

/// Reads the strings of a list after its opening bracket, through its closing one.
pub open spec fn parse_items(t: Seq<char>, first: bool) -> Option<(Seq<Seq<char>>, Seq<char>)>
    decreases t.len(),
{
    if first && t.len() > 0 && t[0] == ']' {
        Some((Seq::empty(), t.drop_first()))
    } else {
        match parse_string(t) {
            Some((x, r)) => if r.len() > 0 && r.len() < t.len() {
                if r[0] == ',' {
                    match parse_items(r.drop_first(), false) {
                        Some((xs, r2)) => Some((seq![x] + xs, r2)),
                        None => None,
                    }
                } else if r[0] == ']' {
                    Some((seq![x], r.drop_first()))
                } else {
                    None
                }
            } else {
                None
            },
            None => None,
        }
    }
}

pub open spec fn starts_with(t: Seq<char>, p: Seq<char>) -> bool {
    t.len() >= p.len() && t.subrange(0, p.len() as int) == p
}

/// Reads a member value at the start of `t`.
pub open spec fn parse_scalar(t: Seq<char>) -> Option<(ScalarView, Seq<char>)> {
    if starts_with(t, seq!['t', 'r', 'u', 'e']) {
        Some((ScalarView::Bool(true), t.subrange(4, t.len() as int)))
    } else if starts_with(t, seq!['f', 'a', 'l', 's', 'e']) {
        Some((ScalarView::Bool(false), t.subrange(5, t.len() as int)))
    } else if t.len() > 0 && t[0] == '[' {
        match parse_items(t.drop_first(), true) {
            Some((l, r)) => Some((ScalarView::StrList(l), r)),
            None => None,
        }
    } else {
        match parse_string(t) {
            Some((s, r)) => Some((ScalarView::Str(s), r)),
            None => None,
        }
    }
}

/// Reads `"key":value` at the start of `t`.
pub open spec fn parse_member(t: Seq<char>) -> Option<(FieldView, Seq<char>)> {
    match parse_string(t) {
        Some((k, r)) => if r.len() > 0 && r[0] == ':' {
            match parse_scalar(r.drop_first()) {
                Some((v, r2)) => Some(((k, v), r2)),
                None => None,
            }
        } else {
            None
        },
        None => None,
    }
}

/// Reads the members of an object after its opening brace, through its closing one.
pub open spec fn parse_members(t: Seq<char>, first: bool) -> Option<(Seq<FieldView>, Seq<char>)>
    decreases t.len(),
{
    if first && t.len() > 0 && t[0] == '}' {
        Some((Seq::empty(), t.drop_first()))
    } else {
        match parse_member(t) {
            Some((f, r)) => if r.len() > 0 && r.len() < t.len() {
                if r[0] == ',' {
                    match parse_members(r.drop_first(), false) {
                        Some((fs, r2)) => Some((seq![f] + fs, r2)),
                        None => None,
                    }
                } else if r[0] == '}' {
                    Some((seq![f], r.drop_first()))
                } else {
                    None
                }
            } else {
                None
            },
            None => None,
        }
    }
}

/// The members of the JSON object that is the whole of `t`, or `None` where `t`
/// is not such an object.
pub open spec fn parse_object(t: Seq<char>) -> Option<Seq<FieldView>> {
    if t.len() > 0 && t[0] == '{' {
        match parse_members(t.drop_first(), true) {
            Some((fs, r)) => if r.len() == 0 {
                Some(fs)
            } else {
                None
            },
            None => None,
        }
    } else {
        None
    }
}

/// The key and the members of an object whose one member holds an object.
pub open spec fn parse_wrapped(t: Seq<char>) -> Option<(Seq<char>, Seq<FieldView>)> {
    if t.len() > 0 && t[0] == '{' {
        match parse_string(t.drop_first()) {
            Some((k, r)) => if r.len() > 1 && r[0] == ':' && r[1] == '{' {
                match parse_members(r.subrange(2, r.len() as int), true) {
                    Some((fs, r2)) => if r2 == seq!['}'] {
                        Some((k, fs))
                    } else {
                        None
                    },
                    None => None,
                }
            } else {
                None
            },
            None => None,
        }
    } else {
        None
    }
}

/// Whether an object's members include one named `key`.
pub open spec fn has_member(fs: Seq<FieldView>, key: Seq<char>) -> bool {
    exists|i: int| 0 <= i < fs.len() && (#[trigger] fs[i]).0 == key
}

proof fn lemma_hex_round_trip(d: int)
    requires
        0 <= d < 16,
    ensures
        hex_value(hex_digit(d)) == d,
{
}

proof fn lemma_control_char_digits(c: char)
    requires
        (c as int) < 0x20,
    ensures
        0 <= c as int / 16 < 16,
        0 <= c as int % 16 < 16,
        ((16 * (c as int / 16) + (c as int) % 16) as char) == c,
{
}

proof fn lemma_unescape_escaped(s: Seq<char>, rest: Seq<char>)
    ensures
        unescape(escape(s) + seq!['"'] + rest) == Some((s, rest)),
    decreases s.len(),
{
    let t = escape(s) + seq!['"'] + rest;
    if s.len() == 0 {
        assert(escape(s) =~= Seq::<char>::empty());
        assert(t[0] == '"');
        assert(t.drop_first() =~= rest);
        assert(s =~= Seq::<char>::empty());
    } else {
        let c = s[0];
        let tail = escape(s.drop_first()) + seq!['"'] + rest;
        lemma_unescape_escaped(s.drop_first(), rest);
        assert(t =~= escape_char(c) + tail);
        assert(s =~= seq![c] + s.drop_first());
        if c == '"' || c == '\\' {
            assert(t.subrange(2, t.len() as int) =~= tail);
        } else if (c as int) < 0x20 {
            lemma_control_char_digits(c);
            lemma_hex_round_trip(c as int / 16);
            lemma_hex_round_trip(c as int % 16);
            assert(t.subrange(6, t.len() as int) =~= tail);
        } else {
            assert(t.drop_first() =~= tail);
        }
    }
}

proof fn lemma_parse_quoted(s: Seq<char>, rest: Seq<char>)
    ensures
        parse_string(quote(s) + rest) == Some((s, rest)),
{
    let t = quote(s) + rest;
    assert(t.drop_first() =~= escape(s) + seq!['"'] + rest);
    lemma_unescape_escaped(s, rest);
}

proof fn lemma_parse_rendered_items(l: Seq<Seq<char>>, rest: Seq<char>, first: bool)
    requires
        l.len() > 0 || first,
    ensures
        parse_items(render_items(l) + seq![']'] + rest, first) == Some((l, rest)),
    decreases l.len(),
{
    let t = render_items(l) + seq![']'] + rest;
    if l.len() == 0 {
        assert(render_items(l) =~= Seq::<char>::empty());
        assert(t.drop_first() =~= rest);
        assert(l =~= Seq::<Seq<char>>::empty());
    } else if l.len() == 1 {
        let r = seq![']'] + rest;
        assert(t =~= quote(l[0]) + r);
        lemma_parse_quoted(l[0], r);
        assert(r.drop_first() =~= rest);
        assert(l =~= seq![l[0]]);
    } else {
        let tail = render_items(l.drop_first()) + seq![']'] + rest;
        let r = seq![','] + tail;
        assert(t =~= quote(l[0]) + r);
        lemma_parse_quoted(l[0], r);
        assert(r.drop_first() =~= tail);
        lemma_parse_rendered_items(l.drop_first(), rest, false);
        assert(l =~= seq![l[0]] + l.drop_first());
    }
}

proof fn lemma_parse_rendered_scalar(v: ScalarView, rest: Seq<char>)
    requires
        rest.len() > 0,
        rest[0] == ',' || rest[0] == '}',
    ensures
        parse_scalar(render_scalar(v) + rest) == Some((v, rest)),
{
    let t = render_scalar(v) + rest;
    match v {
        ScalarView::Bool(b) => {
            if b {
                assert(t.subrange(0, 4) =~= seq!['t', 'r', 'u', 'e']);
                assert(t.subrange(4, t.len() as int) =~= rest);
            } else {
                assert(!starts_with(t, seq!['t', 'r', 'u', 'e']));
                assert(t.subrange(0, 5) =~= seq!['f', 'a', 'l', 's', 'e']);
                assert(t.subrange(5, t.len() as int) =~= rest);
            }
        },
        ScalarView::Str(s) => {
            assert(t[0] == '"');
            assert(!starts_with(t, seq!['t', 'r', 'u', 'e']));
            assert(!starts_with(t, seq!['f', 'a', 'l', 's', 'e']));
            lemma_parse_quoted(s, rest);
        },
        ScalarView::StrList(l) => {
            assert(t[0] == '[');
            assert(!starts_with(t, seq!['t', 'r', 'u', 'e']));
            assert(!starts_with(t, seq!['f', 'a', 'l', 's', 'e']));
            assert(t.drop_first() =~= render_items(l) + seq![']'] + rest);
            lemma_parse_rendered_items(l, rest, true);
        },
    }
}

proof fn lemma_parse_rendered_member(f: FieldView, rest: Seq<char>)
    requires
        rest.len() > 0,
        rest[0] == ',' || rest[0] == '}',
    ensures
        parse_member(render_member(f) + rest) == Some((f, rest)),
        (render_member(f) + rest).len() > rest.len(),
{
    let t = render_member(f) + rest;
    let r = seq![':'] + render_scalar(f.1) + rest;
    assert(t =~= quote(f.0) + r);
    lemma_parse_quoted(f.0, r);
    assert(r.drop_first() =~= render_scalar(f.1) + rest);
    lemma_parse_rendered_scalar(f.1, rest);
}

proof fn lemma_parse_rendered_members(fs: Seq<FieldView>, rest: Seq<char>, first: bool)
    requires
        fs.len() > 0 || first,
    ensures
        parse_members(render_members(fs) + seq!['}'] + rest, first) == Some((fs, rest)),
    decreases fs.len(),
{
    let t = render_members(fs) + seq!['}'] + rest;
    if fs.len() == 0 {
        assert(render_members(fs) =~= Seq::<char>::empty());
        assert(t.drop_first() =~= rest);
        assert(fs =~= Seq::<FieldView>::empty());
    } else if fs.len() == 1 {
        let r = seq!['}'] + rest;
        assert(t =~= render_member(fs[0]) + r);
        lemma_parse_rendered_member(fs[0], r);
        assert(r.drop_first() =~= rest);
        assert(fs =~= seq![fs[0]]);
    } else {
        let tail = render_members(fs.drop_first()) + seq!['}'] + rest;
        let r = seq![','] + tail;
        assert(t =~= render_member(fs[0]) + r);
        lemma_parse_rendered_member(fs[0], r);
        assert(r.drop_first() =~= tail);
        lemma_parse_rendered_members(fs.drop_first(), rest, false);
        assert(fs =~= seq![fs[0]] + fs.drop_first());
    }
}

/// Reading back the text of an object gives exactly the members it was written
/// from, in order: no member is added, dropped or changed.
pub proof fn lemma_object_round_trip(fs: Seq<FieldView>)
    ensures
        parse_object(render_object(fs)) == Some(fs),
{
    let t = render_object(fs);
    assert(t.drop_first() =~= render_members(fs) + seq!['}'] + Seq::<char>::empty());
    lemma_parse_rendered_members(fs, Seq::empty(), true);
}

/// Reading back the text of a wrapped object gives its key and exactly its members.
pub proof fn lemma_wrapped_round_trip(key: Seq<char>, fs: Seq<FieldView>)
    ensures
        parse_wrapped(render_wrapped(key, fs)) == Some((key, fs)),
{
    let t = render_wrapped(key, fs);
    let r = seq![':', '{'] + render_members(fs) + seq!['}'] + seq!['}'];
    assert(t.drop_first() =~= quote(key) + r);
    lemma_parse_quoted(key, r);
    assert(r.subrange(2, r.len() as int) =~= render_members(fs) + seq!['}'] + seq!['}']);
    lemma_parse_rendered_members(fs, seq!['}'], true);
}

/// A site change read back from its JSON holds a name exactly when one was set:
/// an unset name is absent, not null or empty.
pub proof fn lemma_site_patch_round_trip(p: SitePatch)
    ensures
        parse_object(p.to_json_spec()) == Some(p.members()),
        has_member(p.members(), "name"@) <==> p.name is Some,
{
    lemma_object_round_trip(p.members());
    if p.name is Some {
        assert(p.members()[0].0 == "name"@);
    }
}

/// An install change read back from its JSON holds each field exactly when it
/// was set.
pub proof fn lemma_install_patch_round_trip(p: InstallPatch)
    ensures
        parse_object(p.to_json_spec()) == Some(p.members()),
        has_member(p.members(), "site_id"@) <==> p.site_id is Some,
        has_member(p.members(), "environment"@) <==> p.environment is Some,
{
    reveal_strlit("site_id");
    reveal_strlit("environment");
    lemma_object_round_trip(p.members());
    let m = p.members();
    if p.site_id is Some {
        assert(m[0].0 == "site_id"@);
    }
    if p.environment is Some {
        let i = if p.site_id is Some { 1int } else { 0int };
        assert(m[i].0 == "environment"@);
    }
    if has_member(m, "site_id"@) {
        let i = choose|i: int| 0 <= i < m.len() && (#[trigger] m[i]).0 == "site_id"@;
        assert("site_id"@ != "environment"@);
    }
    if has_member(m, "environment"@) {
        let i = choose|i: int| 0 <= i < m.len() && (#[trigger] m[i]).0 == "environment"@;
        assert("site_id"@ != "environment"@);
    }
}

/// A domain change read back from its JSON holds each field exactly when it was
/// set.
pub proof fn lemma_domain_patch_round_trip(p: DomainPatch)
    ensures
        parse_object(p.to_json_spec()) == Some(p.members()),
        has_member(p.members(), "primary"@) <==> p.primary is Some,
        has_member(p.members(), "redirect_to"@) <==> p.redirect_to is Some,
{
    reveal_strlit("primary");
    reveal_strlit("redirect_to");
    lemma_object_round_trip(p.members());
    let m = p.members();
    if p.primary is Some {
        assert(m[0].0 == "primary"@);
    }
    if p.redirect_to is Some {
        let i = if p.primary is Some { 1int } else { 0int };
        assert(m[i].0 == "redirect_to"@);
    }
    if has_member(m, "primary"@) {
        let i = choose|i: int| 0 <= i < m.len() && (#[trigger] m[i]).0 == "primary"@;
        assert("primary"@ != "redirect_to"@);
    }
    if has_member(m, "redirect_to"@) {
        let i = choose|i: int| 0 <= i < m.len() && (#[trigger] m[i]).0 == "redirect_to"@;
        assert("primary"@ != "redirect_to"@);
    }
}

/// An account user change read back from its JSON holds, under `user`, each
/// field exactly when it was set.
pub proof fn lemma_account_user_patch_round_trip(p: AccountUserPatch)
    ensures
        parse_wrapped(p.to_json_spec()) == Some(("user"@, p.user.members())),
        has_member(p.user.members(), "roles"@) <==> p.user.roles is Some,
        has_member(p.user.members(), "install_ids"@) <==> p.user.install_ids is Some,
{
    reveal_strlit("roles");
    reveal_strlit("install_ids");
    lemma_wrapped_round_trip("user"@, p.user.members());
    let m = p.user.members();
    if p.user.roles is Some {
        assert(m[0].0 == "roles"@);
    }
    if p.user.install_ids is Some {
        let i = if p.user.roles is Some { 1int } else { 0int };
        assert(m[i].0 == "install_ids"@);
    }
    if has_member(m, "roles"@) {
        let i = choose|i: int| 0 <= i < m.len() && (#[trigger] m[i]).0 == "roles"@;
        assert("roles"@ != "install_ids"@);
    }
    if has_member(m, "install_ids"@) {
        let i = choose|i: int| 0 <= i < m.len() && (#[trigger] m[i]).0 == "install_ids"@;
        assert("roles"@ != "install_ids"@);
    }
}

} // verus!
