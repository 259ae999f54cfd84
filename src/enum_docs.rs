//! Names of enumeration values as the documentation writes them.
use vstd::prelude::*;
use vstd::string::*;

verus! {

/// Relies on std's `String::push`: appends one character.
#[verifier::external_body]
fn push_char(s: &mut String, c: char)
    ensures
        final(s)@ == old(s)@.push(c),
{
    s.push(c)
}

pub open spec fn is_ascii_upper(c: char) -> bool {
    'A' <= c && c <= 'Z'
}

pub open spec fn ascii_lower(c: char) -> char {
    if is_ascii_upper(c) {
        (((c as u32) + 32) as u8) as char
    } else {
        c
    }
}

/// The kebab case of a Pascal case name: each upper-case ASCII letter is
/// lowered, and preceded by a dash unless it starts the name.
pub open spec fn kebab(s: Seq<char>) -> Seq<char>
    decreases s.len(),
{
    if s.len() == 0 {
        Seq::empty()
    } else {
        let before = kebab(s.drop_last());
        let c = s.last();
        if is_ascii_upper(c) {
            if before.len() > 0 {
                before.push('-').push(ascii_lower(c))
            } else {
                before.push(ascii_lower(c))
            }
        } else {
            before.push(c)
        }
    }
}

proof fn lemma_kebab_empty(s: Seq<char>)
    ensures
        (kebab(s).len() == 0) == (s.len() == 0),
    decreases s.len(),
{
    if s.len() > 0 {
        lemma_kebab_empty(s.drop_last());
    }
}

/// Converts an ASCII Pascal case name to kebab case.
pub fn to_kebab_case(str: &str) -> (r: String)
    ensures
        r@ == kebab(str@),
{
    let n = str.unicode_len();
    let mut result = String::new();
    let mut i: usize = 0;
    while i < n
        invariant
            n == str@.len(),
            i <= n,
            result@ == kebab(str@.take(i as int)),
        decreases n - i,
    {
        let x = str.get_char(i);
        proof {
            assert(str@.take(i + 1).drop_last() =~= str@.take(i as int));
            lemma_kebab_empty(str@.take(i as int));
        }
        if 'A' <= x && x <= 'Z' {
            if result.as_str().unicode_len() > 0 {
                push_char(&mut result, '-');
            }
            push_char(&mut result, (((x as u32) + 32) as u8) as char);
        } else {
            push_char(&mut result, x);
        }
        i = i + 1;
    }
    proof {
        assert(str@.take(i as int) =~= str@);
    }
    result
}

/// A value of a built-in enumeration and its documentation lines.
pub struct EnumValueDoc {
    pub name: String,
    pub docs: Vec<String>,
}

/// A built-in enumeration, its documentation lines and its values.
pub struct EnumDoc {
    pub name: String,
    pub docs: Vec<String>,
    pub values: Vec<EnumValueDoc>,
}

/// Each line followed by a line break.
pub open spec fn doc_lines(docs: Seq<String>) -> Seq<char>
    decreases docs.len(),
{
    if docs.len() == 0 {
        Seq::empty()
    } else {
        doc_lines(docs.drop_last()) + docs.last()@ + seq!['\n']
    }
}

/// The lines joined by a line break and an indentation of three spaces.
pub open spec fn joined_docs(docs: Seq<String>) -> Seq<char>
    decreases docs.len(),
{
    if docs.len() == 0 {
        Seq::empty()
    } else if docs.len() == 1 {
        docs[0]@
    } else {
        joined_docs(docs.drop_last()) + "\n   "@ + docs.last()@
    }
}

/// The list item of a value: its kebab-case name in bold code, then its
/// documentation.
pub open spec fn value_entry(v: EnumValueDoc) -> Seq<char> {
    "* **`"@ + kebab(v.name@) + "`**:"@ + joined_docs(v.docs@) + seq!['\n']
}

pub open spec fn value_entries(values: Seq<EnumValueDoc>) -> Seq<char>
    decreases values.len(),
{
    if values.len() == 0 {
        Seq::empty()
    } else {
        value_entries(values.drop_last()) + value_entry(values.last())
    }
}

/// The section of an enumeration: a heading with its name, its
/// documentation, and the list of its values.
pub open spec fn enum_section(e: EnumDoc) -> Seq<char> {
    "## `"@ + e.name@ + "`\n\n"@ + doc_lines(e.docs@) + seq!['\n'] + value_entries(e.values@) + seq![
        '\n',
    ]
}

fn push_doc_lines(out: &mut String, docs: &Vec<String>)
    ensures
        final(out)@ == old(out)@ + doc_lines(docs@),
{
    let ghost start = out@;
    let mut i: usize = 0;
    while i < docs.len()
        invariant
            i <= docs@.len(),
            out@ == start + doc_lines(docs@.take(i as int)),
        decreases docs@.len() - i,
    {
        out.append(docs[i].as_str());
        out.append("\n");
        proof {
            reveal_strlit("\n");
            assert(docs@.take(i + 1).drop_last() =~= docs@.take(i as int));
            assert(out@ =~= start + doc_lines(docs@.take(i + 1)));
        }
        i = i + 1;
    }
    proof {
        assert(docs@.take(i as int) =~= docs@);
    }
}

fn push_joined_docs(out: &mut String, docs: &Vec<String>)
    ensures
        final(out)@ == old(out)@ + joined_docs(docs@),
{
    let ghost start = out@;
    let mut i: usize = 0;
    while i < docs.len()
        invariant
            i <= docs@.len(),
            out@ == start + joined_docs(docs@.take(i as int)),
        decreases docs@.len() - i,
    {
        if i > 0 {
            out.append("\n   ");
        }
        out.append(docs[i].as_str());
        proof {
            assert(docs@.take(i + 1).drop_last() =~= docs@.take(i as int));
            if i == 0 {
                assert(docs@.take(1)[0] == docs@[0]);
                assert(out@ =~= start + joined_docs(docs@.take(i + 1)));
            } else {
                assert(out@ =~= start + joined_docs(docs@.take(i + 1)));
            }
        }
        i = i + 1;
    }
    proof {
        assert(docs@.take(i as int) =~= docs@);
    }
}

fn push_value_entry(out: &mut String, v: &EnumValueDoc)
    ensures
        final(out)@ == old(out)@ + value_entry(*v),
{
    let ghost start = out@;
    out.append("* **`");
    let name = to_kebab_case(v.name.as_str());
    out.append(name.as_str());
    out.append("`**:");
    push_joined_docs(out, &v.docs);
    out.append("\n");
    proof {
        reveal_strlit("\n");
        assert(out@ =~= start + value_entry(*v));
    }
}

/// The documentation section of one enumeration, in Markdown.
pub fn enum_section_markdown(e: &EnumDoc) -> (r: String)
    ensures
        r@ == enum_section(*e),
{
    let mut out = String::new();
    out.append("## `");
    out.append(e.name.as_str());
    out.append("`\n\n");
    push_doc_lines(&mut out, &e.docs);
    out.append("\n");
    let ghost before_values = out@;
    let mut i: usize = 0;
    while i < e.values.len()
        invariant
            i <= e.values@.len(),
            out@ == before_values + value_entries(e.values@.take(i as int)),
        decreases e.values@.len() - i,
    {
        push_value_entry(&mut out, &e.values[i]);
        proof {
            assert(e.values@.take(i + 1).drop_last() =~= e.values@.take(i as int));
            assert(out@ =~= before_values + value_entries(e.values@.take(i + 1)));
        }
        i = i + 1;
    }
    proof {
        assert(e.values@.take(i as int) =~= e.values@);
    }
    out.append("\n");
    proof {
        reveal_strlit("\n");
        assert(out@ =~= enum_section(*e));
    }
    out
}

} // verus!
