//! Rendering of class records as text tables.

use vstd::prelude::*;
use vstd::string::*;
use crate::model::{ClassDoc, ClassModel, FieldDoc, FieldModel, MethodDoc, MethodModel, ParamDoc, ParamModel};
use crate::scanner::scan;
use crate::scanner::scan_lines;

verus! {

/// The parts joined with `sep` between each two.
pub open spec fn join(parts: Seq<Seq<char>>, sep: Seq<char>) -> Seq<char>
    decreases parts.len(),
{
    if parts.len() == 0 {
        seq![]
    } else if parts.len() == 1 {
        parts[0]
    } else {
        join(parts.drop_last(), sep) + sep + parts.last()
    }
}

pub open spec fn param_text(p: ParamModel) -> Seq<char> {
    p.name + ": "@ + p.ty
}

pub open spec fn param_texts(ps: Seq<ParamModel>) -> Seq<Seq<char>> {
    Seq::new(ps.len(), |i: int| param_text(ps[i]))
}

/// `| name? | type | doc lines |`
pub open spec fn field_row(f: FieldModel) -> Seq<char> {
    "| "@ + f.name + (if f.optional {
        "?"@
    } else {
        seq![]
    }) + " | "@ + f.ty + " | "@ + join(f.doc, " "@) + " |\n"@
}

/// `| :name | p: type, ... | type, ... | doc lines |`, with `.` for a static method.
pub open spec fn method_row(m: MethodModel) -> Seq<char> {
    "| "@ + (if m.is_instance {
        ":"@
    } else {
        "."@
    }) + m.name + " | "@ + join(param_texts(m.params), ", "@) + " | "@ + join(m.returns, ", "@)
        + " | "@ + join(m.doc, " "@) + " |\n"@
}

pub open spec fn field_rows(fs: Seq<FieldModel>) -> Seq<char>
    decreases fs.len(),
{
    if fs.len() == 0 {
        seq![]
    } else {
        field_rows(fs.drop_last()) + field_row(fs.last())
    }
}

pub open spec fn method_rows(ms: Seq<MethodModel>) -> Seq<char>
    decreases ms.len(),
{
    if ms.len() == 0 {
        seq![]
    } else {
        method_rows(ms.drop_last()) + method_row(ms.last())
    }
}

pub open spec fn fields_table(fs: Seq<FieldModel>) -> Seq<char> {
    if fs.len() == 0 {
        seq![]
    } else {
        "### Fields\n\n| Name | Type | Description |\n| --- | --- | --- |\n"@ + field_rows(fs)
            + "\n"@
    }
}

pub open spec fn methods_table(ms: Seq<MethodModel>) -> Seq<char> {
    if ms.len() == 0 {
        seq![]
    } else {
        "### Methods\n\n| Name | Params | Returns | Description |\n| --- | --- | --- | --- |\n"@
            + method_rows(ms) + "\n"@
    }
}

/// The text block of one class: a heading, then the fields table and the
/// methods table, each left out when it would be empty.
pub open spec fn render_class(c: ClassModel) -> Seq<char> {
    "## "@ + c.name + "\n\n"@ + fields_table(c.fields) + methods_table(c.methods)
}

/// The text blocks of the classes, one after the other.
pub open spec fn render_all(cs: Seq<ClassModel>) -> Seq<char>
    decreases cs.len(),
{
    if cs.len() == 0 {
        seq![]
    } else {
        render_all(cs.drop_last()) + render_class(cs.last())
    }
}

fn put(out: String, s: &str) -> (r: String)
    ensures
        r@ == out@ + s@,
{
    let mut r = out;
    r.append(s);
    r
}

proof fn lemma_join_step(parts: Seq<Seq<char>>, sep: Seq<char>, i: int)
    requires
        0 <= i < parts.len(),
    ensures
        join(parts.subrange(0, i + 1), sep) == if i == 0 {
            parts[0]
        } else {
            join(parts.subrange(0, i), sep) + sep + parts[i]
        },
{
    let t = parts.subrange(0, i + 1);
    assert(t.drop_last() =~= parts.subrange(0, i));
}

fn add_joined(out: String, parts: &Vec<String>, sep: &str) -> (r: String)
    ensures
        r@ == out@ + join(parts.deep_view(), sep@),
{
    let mut r = out;
    let ghost start = out@;
    let mut i: usize = 0;
    while i < parts.len()
        invariant
            i <= parts@.len(),
            r@ == start + join(parts.deep_view().subrange(0, i as int), sep@),
        decreases parts@.len() - i,
    {
        proof {
            lemma_join_step(parts.deep_view(), sep@, i as int);
        }
        if i > 0 {
            r = put(r, sep);
        }
        r = put(r, parts[i].as_str());
        assert(r@ =~= start + join(parts.deep_view().subrange(0, i + 1), sep@));
        i = i + 1;
    }
    assert(parts.deep_view().subrange(0, i as int) =~= parts.deep_view());
    r
}

fn add_params(out: String, ps: &Vec<ParamDoc>) -> (r: String)
    ensures
        r@ == out@ + join(param_texts(ps.deep_view()), ", "@),
{
    let mut r = out;
    let ghost start = out@;
    let ghost texts = param_texts(ps.deep_view());
    let mut i: usize = 0;
    while i < ps.len()
        invariant
            i <= ps@.len(),
            texts == param_texts(ps.deep_view()),
            r@ == start + join(texts.subrange(0, i as int), ", "@),
        decreases ps@.len() - i,
    {
        proof {
            lemma_join_step(texts, ", "@, i as int);
        }
        if i > 0 {
            r = put(r, ", ");
        }
        r = put(r, ps[i].name.as_str());
        r = put(r, ": ");
        r = put(r, ps[i].ty.as_str());
        assert(r@ =~= start + join(texts.subrange(0, i + 1), ", "@));
        i = i + 1;
    }
    assert(texts.subrange(0, i as int) =~= texts);
    r
}

fn add_field_row(out: String, f: &FieldDoc) -> (r: String)
    ensures
        r@ == out@ + field_row(f.deep_view()),
{
    let r = put(out, "| ");
    let r = put(r, f.name.as_str());
    let r = if f.optional {
        put(r, "?")
    } else {
        r
    };
    let r = put(r, " | ");
    let r = put(r, f.ty.as_str());
    let r = put(r, " | ");
    let r = add_joined(r, &f.doc, " ");
    let r = put(r, " |\n");
    assert(r@ =~= out@ + field_row(f.deep_view()));
    r
}

fn add_method_row(out: String, m: &MethodDoc) -> (r: String)
    ensures
        r@ == out@ + method_row(m.deep_view()),
{
    let r = put(out, "| ");
    let r = if m.is_instance {
        put(r, ":")
    } else {
        put(r, ".")
    };
    let r = put(r, m.name.as_str());
    let r = put(r, " | ");
    let r = add_params(r, &m.params);
    let r = put(r, " | ");
    let r = add_joined(r, &m.returns, ", ");
    let r = put(r, " | ");
    let r = add_joined(r, &m.doc, " ");
    let r = put(r, " |\n");
    assert(r@ =~= out@ + method_row(m.deep_view()));
    r
}

fn add_fields_table(out: String, fs: &Vec<FieldDoc>) -> (r: String)
    ensures
        r@ == out@ + fields_table(fs.deep_view()),
{
    if fs.len() == 0 {
        assert(out@ + fields_table(fs.deep_view()) =~= out@);
        return out;
    }
    let mut r = put(out, "### Fields\n\n| Name | Type | Description |\n| --- | --- | --- |\n");
    let ghost start = r@;
    let mut i: usize = 0;
    while i < fs.len()
        invariant
            i <= fs@.len(),
            r@ == start + field_rows(fs.deep_view().subrange(0, i as int)),
        decreases fs@.len() - i,
    {
        r = add_field_row(r, &fs[i]);
        proof {
            let t = fs.deep_view().subrange(0, i + 1);
            assert(t.drop_last() =~= fs.deep_view().subrange(0, i as int));
        }
        assert(r@ =~= start + field_rows(fs.deep_view().subrange(0, i + 1)));
        i = i + 1;
    }
    assert(fs.deep_view().subrange(0, i as int) =~= fs.deep_view());
    let r = put(r, "\n");
    assert(r@ =~= out@ + fields_table(fs.deep_view()));
    r
}

fn add_methods_table(out: String, ms: &Vec<MethodDoc>) -> (r: String)
    ensures
        r@ == out@ + methods_table(ms.deep_view()),
{
    if ms.len() == 0 {
        assert(out@ + methods_table(ms.deep_view()) =~= out@);
        return out;
    }
    let mut r = put(
        out,
        "### Methods\n\n| Name | Params | Returns | Description |\n| --- | --- | --- | --- |\n",
    );
    let ghost start = r@;
    let mut i: usize = 0;
    while i < ms.len()
        invariant
            i <= ms@.len(),
            r@ == start + method_rows(ms.deep_view().subrange(0, i as int)),
        decreases ms@.len() - i,
    {
        r = add_method_row(r, &ms[i]);
        proof {
            let t = ms.deep_view().subrange(0, i + 1);
            assert(t.drop_last() =~= ms.deep_view().subrange(0, i as int));
        }
        assert(r@ =~= start + method_rows(ms.deep_view().subrange(0, i + 1)));
        i = i + 1;
    }
    assert(ms.deep_view().subrange(0, i as int) =~= ms.deep_view());
    let r = put(r, "\n");
    assert(r@ =~= out@ + methods_table(ms.deep_view()));
    r
}

impl ClassDoc {
    /// The text block of this class.
    pub fn render(&self) -> (r: String)
        ensures
            r@ == render_class(self.deep_view()),
    {
        let r = put(String::new(), "## ");
        let r = put(r, self.name.as_str());
        let r = put(r, "\n\n");
        let r = add_fields_table(r, &self.fields);
        let r = add_methods_table(r, &self.methods);
        assert(r@ =~= render_class(self.deep_view()));
        r
    }
}

/// The text blocks of the classes, one after the other.
pub fn render_classes(classes: &Vec<ClassDoc>) -> (r: String)
    ensures
        r@ == render_all(classes.deep_view()),
{
    let mut r = String::new();
    let mut i: usize = 0;
    while i < classes.len()
        invariant
            i <= classes@.len(),
            r@ == render_all(classes.deep_view().subrange(0, i as int)),
        decreases classes@.len() - i,
    {
        let block = classes[i].render();
        r = put(r, block.as_str());
        proof {
            let t = classes.deep_view().subrange(0, i + 1);
            assert(t.drop_last() =~= classes.deep_view().subrange(0, i as int));
        }
        i = i + 1;
    }
    assert(classes.deep_view().subrange(0, i as int) =~= classes.deep_view());
    r
}

/// The documentation of one file, given its lines.
pub fn document_lines(lines: &Vec<String>) -> (r: String)
    ensures
        r@ == render_all(scan(lines.deep_view())),
{
    let classes = scan_lines(lines);
    render_classes(&classes)
}

} // verus!
