use vstd::prelude::*;

verus! {

/// A value of a request payload member.
pub enum Scalar {
    Str(String),
    Bool(bool),
    StrList(Vec<String>),
}

/// One member of a request payload object.
pub struct Field {
    pub key: String,
    pub value: Scalar,
}

pub enum ScalarView {
    Str(Seq<char>),
    Bool(bool),
    StrList(Seq<Seq<char>>),
}

pub type FieldView = (Seq<char>, ScalarView);

impl View for Scalar {
    type V = ScalarView;

    open spec fn view(&self) -> ScalarView {
        match self {
            Scalar::Str(s) => ScalarView::Str(s@),
            Scalar::Bool(b) => ScalarView::Bool(*b),
            Scalar::StrList(l) => ScalarView::StrList(l@.map_values(|s: String| s@)),
        }
    }
}

impl View for Field {
    type V = FieldView;

    open spec fn view(&self) -> FieldView {
        (self.key@, self.value@)
    }
}

pub open spec fn fields_view(fs: Seq<Field>) -> Seq<FieldView> {
    fs.map_values(|f: Field| f@)
}

pub open spec fn hex_digit(d: int) -> char {
    if d < 10 {
        ('0' as int + d) as char
    } else {
        ('a' as int + d - 10) as char
    }
}

/// How one character stands inside a quoted string: quote and backslash are
/// preceded by a backslash, control characters become `\u00XX`.
pub open spec fn escape_char(c: char) -> Seq<char> {
    if c == '"' || c == '\\' {
        seq!['\\', c]
    } else if (c as int) < 0x20 {
        seq!['\\', 'u', '0', '0', hex_digit(c as int / 16), hex_digit(c as int % 16)]
    } else {
        seq![c]
    }
}

pub open spec fn escape(s: Seq<char>) -> Seq<char>
    decreases s.len(),
{
    if s.len() == 0 {
        Seq::empty()
    } else {
        escape_char(s[0]) + escape(s.drop_first())
    }
}

pub open spec fn quote(s: Seq<char>) -> Seq<char> {
    seq!['"'] + escape(s) + seq!['"']
}

/// The members of a list, quoted and separated by commas.
pub open spec fn render_items(l: Seq<Seq<char>>) -> Seq<char>
    decreases l.len(),
{
    if l.len() == 0 {
        Seq::empty()
    } else if l.len() == 1 {
        quote(l[0])
    } else {
        quote(l[0]) + seq![','] + render_items(l.drop_first())
    }
}

pub open spec fn render_scalar(v: ScalarView) -> Seq<char> {
    match v {
        ScalarView::Str(s) => quote(s),
        ScalarView::Bool(b) => if b {
            seq!['t', 'r', 'u', 'e']
        } else {
            seq!['f', 'a', 'l', 's', 'e']
        },
        ScalarView::StrList(l) => seq!['['] + render_items(l) + seq![']'],
    }
}

pub open spec fn render_member(f: FieldView) -> Seq<char> {
    quote(f.0) + seq![':'] + render_scalar(f.1)
}

pub open spec fn render_members(fs: Seq<FieldView>) -> Seq<char>
    decreases fs.len(),
{
    if fs.len() == 0 {
        Seq::empty()
    } else if fs.len() == 1 {
        render_member(fs[0])
    } else {
        render_member(fs[0]) + seq![','] + render_members(fs.drop_first())
    }
}

/// The JSON text of an object with exactly these members, in this order.
pub open spec fn render_object(fs: Seq<FieldView>) -> Seq<char> {
    seq!['{'] + render_members(fs) + seq!['}']
}

/// The JSON text of an object with one member whose value is an object.
pub open spec fn render_wrapped(key: Seq<char>, inner: Seq<FieldView>) -> Seq<char> {
    seq!['{'] + quote(key) + seq![':'] + render_object(inner) + seq!['}']
}

fn hex_str(d: u32) -> (r: &'static str)
    requires
        d < 16,
    ensures
        r@ == seq![hex_digit(d as int)],
{
    proof {
        reveal_strlit("0");
        reveal_strlit("1");
        reveal_strlit("2");
        reveal_strlit("3");
        reveal_strlit("4");
        reveal_strlit("5");
        reveal_strlit("6");
        reveal_strlit("7");
        reveal_strlit("8");
        reveal_strlit("9");
        reveal_strlit("a");
        reveal_strlit("b");
        reveal_strlit("c");
        reveal_strlit("d");
        reveal_strlit("e");
        reveal_strlit("f");
    }
    let r = match d {
        0 => "0",
        1 => "1",
        2 => "2",
        3 => "3",
        4 => "4",
        5 => "5",
        6 => "6",
        7 => "7",
        8 => "8",
        9 => "9",
        10 => "a",
        11 => "b",
        12 => "c",
        13 => "d",
        14 => "e",
        _ => "f",
    };
    assert(r@ =~= seq![hex_digit(d as int)]);
    r
}

proof fn lemma_escape_push(s: Seq<char>, c: char)
    ensures
        escape(s.push(c)) == escape(s) + escape_char(c),
    decreases s.len(),
{
    if s.len() == 0 {
        assert(s.push(c).drop_first() =~= Seq::<char>::empty());
        assert(escape(Seq::<char>::empty()) == Seq::<char>::empty());
        assert(escape(s.push(c)) =~= escape(s) + escape_char(c));
    } else {
        assert(s.push(c).drop_first() =~= s.drop_first().push(c));
        lemma_escape_push(s.drop_first(), c);
        assert(escape(s.push(c)) =~= escape(s) + escape_char(c));
    }
}

/// Appends `s` quoted and escaped.
fn append_quoted(out: &mut String, s: &str)
    ensures
        final(out)@ == old(out)@ + quote(s@),
{
    proof {
        reveal_strlit("\"");
        reveal_strlit("\\");
        reveal_strlit("\\u00");
    }
    out.append("\"");
    let n = s.unicode_len();
    let mut i: usize = 0;
    while i < n
        invariant
            n == s@.len(),
            i <= n,
            out@ == old(out)@ + seq!['"'] + escape(s@.subrange(0, i as int)),
        decreases n - i,
    {
        proof {
            reveal_strlit("\\");
            reveal_strlit("\\u00");
        }
        let c = s.get_char(i);
        let ghost prev = out@;
        assert(s@.subrange(i as int, i + 1) =~= seq![c]);
        if c == '"' || c == '\\' {
            out.append("\\");
            out.append(s.substring_char(i, i + 1));
            assert(out@ =~= prev + escape_char(c));
        } else if (c as u32) < 0x20 {
            let code = c as u32;
            out.append("\\u00");
            out.append(hex_str(code / 16));
            out.append(hex_str(code % 16));
            assert(out@ =~= prev + escape_char(c));
        } else {
            out.append(s.substring_char(i, i + 1));
            assert(out@ =~= prev + escape_char(c));
        }
        proof {
            assert(s@.subrange(0, i + 1) =~= s@.subrange(0, i as int).push(c));
            lemma_escape_push(s@.subrange(0, i as int), c);
        }
        i = i + 1;
    }
    assert(s@.subrange(0, n as int) =~= s@);
    out.append("\"");
    assert(out@ =~= old(out)@ + quote(s@));
}

proof fn lemma_render_items_push(l: Seq<Seq<char>>, s: Seq<char>)
    ensures
        render_items(l.push(s)) == if l.len() == 0 {
            quote(s)
        } else {
            render_items(l) + seq![','] + quote(s)
        },
    decreases l.len(),
{
    if l.len() == 0 {
    } else if l.len() == 1 {
        assert(l.push(s).drop_first() =~= seq![s]);
        assert(render_items(seq![s]) == quote(s));
        assert(render_items(l.push(s)) =~= render_items(l) + seq![','] + quote(s));
    } else {
        assert(l.push(s).drop_first() =~= l.drop_first().push(s));
        lemma_render_items_push(l.drop_first(), s);
        assert(render_items(l.push(s)) =~= render_items(l) + seq![','] + quote(s));
    }
}

proof fn lemma_render_members_push(fs: Seq<FieldView>, f: FieldView)
    ensures
        render_members(fs.push(f)) == if fs.len() == 0 {
            render_member(f)
        } else {
            render_members(fs) + seq![','] + render_member(f)
        },
    decreases fs.len(),
{
    if fs.len() == 0 {
    } else if fs.len() == 1 {
        assert(fs.push(f).drop_first() =~= seq![f]);
        assert(render_members(seq![f]) == render_member(f));
        assert(render_members(fs.push(f)) =~= render_members(fs) + seq![','] + render_member(f));
    } else {
        assert(fs.push(f).drop_first() =~= fs.drop_first().push(f));
        lemma_render_members_push(fs.drop_first(), f);
        assert(render_members(fs.push(f)) =~= render_members(fs) + seq![','] + render_member(f));
    }
}

fn append_scalar(out: &mut String, v: &Scalar)
    ensures
        final(out)@ == old(out)@ + render_scalar(v@),
{
    proof {
        reveal_strlit("true");
        reveal_strlit("false");
        reveal_strlit("[");
        reveal_strlit("]");
        reveal_strlit(",");
    }
    match v {
        Scalar::Str(s) => append_quoted(out, s.as_str()),
        Scalar::Bool(b) => {
            if *b {
                out.append("true");
            } else {
                out.append("false");
            }
        },
        Scalar::StrList(l) => {
            let ghost items = l@.map_values(|s: String| s@);
            out.append("[");
            let ghost start = out@;
            let mut i: usize = 0;
            while i < l.len()
                invariant
                    i <= l.len(),
                    items == l@.map_values(|s: String| s@),
                    out@ == start + render_items(items.subrange(0, i as int)),
                decreases l.len() - i,
            {
                proof {
                    reveal_strlit(",");
                }
                let ghost prev = items.subrange(0, i as int);
                if i > 0 {
                    out.append(",");
                }
                append_quoted(out, l[i].as_str());
                proof {
                    assert(items[i as int] == l@[i as int]@);
                    if i > 0 {
                        assert(out@ =~= start + render_items(prev) + seq![','] + quote(items[i as int]));
                    } else {
                        assert(prev =~= Seq::<Seq<char>>::empty());
                        assert(render_items(prev) == Seq::<char>::empty());
                        assert(out@ =~= start + quote(items[i as int]));
                    }
                    assert(items.subrange(0, i + 1) =~= prev.push(l@[i as int]@));
                    lemma_render_items_push(prev, l@[i as int]@);
                }
                i = i + 1;
            }
            assert(items.subrange(0, l.len() as int) =~= items);
            out.append("]");
        },
    }
    assert(out@ =~= old(out)@ + render_scalar(v@));
}

/// Appends the members, separated by commas, without the braces.
fn append_members(out: &mut String, fields: &Vec<Field>)
    ensures
        final(out)@ == old(out)@ + render_members(fields_view(fields@)),
{
    proof {
        reveal_strlit(",");
        reveal_strlit(":");
    }
    let ghost fv = fields_view(fields@);
    let mut i: usize = 0;
    while i < fields.len()
        invariant
            i <= fields.len(),
            fv == fields_view(fields@),
            out@ == old(out)@ + render_members(fv.subrange(0, i as int)),
        decreases fields.len() - i,
    {
        proof {
            reveal_strlit(",");
            reveal_strlit(":");
        }
        let ghost prev = fv.subrange(0, i as int);
        if i > 0 {
            out.append(",");
        }
        let ghost mid = out@;
        append_quoted(out, fields[i].key.as_str());
        out.append(":");
        append_scalar(out, &fields[i].value);
        proof {
            assert(fv[i as int] == fields@[i as int]@);
            assert(out@ =~= mid + render_member(fv[i as int]));
            if i == 0 {
                assert(prev =~= Seq::<FieldView>::empty());
                assert(render_members(prev) == Seq::<char>::empty());
            }
            assert(fv.subrange(0, i + 1) =~= prev.push(fv[i as int]));
            lemma_render_members_push(prev, fv[i as int]);
            assert(out@ =~= old(out)@ + render_members(fv.subrange(0, i + 1)));
        }
        i = i + 1;
    }
    assert(fv.subrange(0, fields.len() as int) =~= fv);
}

/// The JSON text of an object with exactly the given members, in order.
pub fn object_to_json(fields: &Vec<Field>) -> (r: String)
    ensures
        r@ == render_object(fields_view(fields@)),
{
    proof {
        reveal_strlit("{");
        reveal_strlit("}");
    }
    let mut out = String::from_str("{");
    append_members(&mut out, fields);
    out.append("}");
    assert(out@ =~= render_object(fields_view(fields@)));
    out
}

/// The JSON text of an object whose one member `key` holds an object with the
/// given members.
pub fn wrapped_to_json(key: &str, fields: &Vec<Field>) -> (r: String)
    ensures
        r@ == render_wrapped(key@, fields_view(fields@)),
{
    proof {
        reveal_strlit("{");
        reveal_strlit("}");
        reveal_strlit(":");
    }
    let mut out = String::from_str("{");
    append_quoted(&mut out, key);
    out.append(":{");
    proof {
        reveal_strlit(":{");
    }
    append_members(&mut out, fields);
    out.append("}}");
    proof {
        reveal_strlit("}}");
    }
    assert(out@ =~= render_wrapped(key@, fields_view(fields@)));
    out
}

} // verus!
