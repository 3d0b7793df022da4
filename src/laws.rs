//! Properties of the scanner that hold for every input.

use vstd::prelude::*;
use crate::model::{ClassModel, FieldModel, MethodModel};
use crate::pattern::{classify, last_sep, MarkerModel};
use crate::text::{in_run, is_sep, is_space, is_word, run_end, Run};
use crate::render::render_all;
use crate::scanner::{finished, scan, scan_state, step, ScanModel};

verus! {

pub open spec fn class_name_of(m: MarkerModel) -> Seq<Seq<char>> {
    match m {
        MarkerModel::Class { name } => seq![name],
        _ => seq![],
    }
}

pub open spec fn field_name_of(m: MarkerModel) -> Seq<Seq<char>> {
    match m {
        MarkerModel::Field { name, .. } => seq![name],
        _ => seq![],
    }
}

pub open spec fn method_name_of(m: MarkerModel) -> Seq<Seq<char>> {
    match m {
        MarkerModel::Signature { name, .. } => seq![name],
        _ => seq![],
    }
}

/// The names of the class markers among `lines`, in line order.
pub open spec fn class_markers(lines: Seq<Seq<char>>) -> Seq<Seq<char>>
    decreases lines.len(),
{
    if lines.len() == 0 {
        seq![]
    } else {
        class_markers(lines.drop_last()) + class_name_of(classify(lines.last()))
    }
}

/// The names of the field markers among `lines`, in line order.
pub open spec fn field_markers(lines: Seq<Seq<char>>) -> Seq<Seq<char>>
    decreases lines.len(),
{
    if lines.len() == 0 {
        seq![]
    } else {
        field_markers(lines.drop_last()) + field_name_of(classify(lines.last()))
    }
}

/// The member names of the signature lines among `lines`, in line order.
pub open spec fn method_markers(lines: Seq<Seq<char>>) -> Seq<Seq<char>>
    decreases lines.len(),
{
    if lines.len() == 0 {
        seq![]
    } else {
        method_markers(lines.drop_last()) + method_name_of(classify(lines.last()))
    }
}

pub open spec fn class_names(cs: Seq<ClassModel>) -> Seq<Seq<char>> {
    cs.map_values(|c: ClassModel| c.name)
}

pub open spec fn field_names(fs: Seq<FieldModel>) -> Seq<Seq<char>> {
    fs.map_values(|f: FieldModel| f.name)
}

pub open spec fn method_names(ms: Seq<MethodModel>) -> Seq<Seq<char>> {
    ms.map_values(|m: MethodModel| m.name)
}

proof fn lemma_step_class_names(st: ScanModel, m: MarkerModel)
    ensures
        class_names(finished(step(st, m))) == class_names(finished(st)) + class_name_of(m),
{
    assert(class_names(finished(step(st, m))) =~= class_names(finished(st)) + class_name_of(m));
}

/// Every class marker yields one block, and the blocks come in the order of
/// their markers: the names of the emitted classes are exactly the names on
/// the class marker lines, in line order.
pub proof fn lemma_one_block_per_class_marker(lines: Seq<Seq<char>>)
    ensures
        class_names(scan(lines)) == class_markers(lines),
        scan(lines).len() == class_markers(lines).len(),
    decreases lines.len(),
{
    if lines.len() == 0 {
        assert(class_names(scan(lines)) =~= class_markers(lines));
    } else {
        lemma_one_block_per_class_marker(lines.drop_last());
        lemma_step_class_names(scan_state(lines.drop_last()), classify(lines.last()));
    }
    assert(class_names(scan(lines)).len() == scan(lines).len());
}

proof fn lemma_no_class_marker_names(lines: Seq<Seq<char>>)
    requires
        forall|i: int| 0 <= i < lines.len() ==> !(classify(#[trigger] lines[i]) is Class),
    ensures
        class_markers(lines).len() == 0,
    decreases lines.len(),
{
    if lines.len() > 0 {
        let init = lines.drop_last();
        assert forall|i: int| 0 <= i < init.len() implies !(classify(#[trigger] init[i]) is Class) by {
            assert(init[i] == lines[i]);
        }
        lemma_no_class_marker_names(init);
        assert(!(classify(lines[lines.len() - 1]) is Class));
    }
}

/// A file without class markers, and so in particular one without any
/// marker, yields no block at all.
pub proof fn lemma_no_class_marker_no_blocks(lines: Seq<Seq<char>>)
    requires
        forall|i: int| 0 <= i < lines.len() ==> !(classify(#[trigger] lines[i]) is Class),
    ensures
        scan(lines).len() == 0,
        render_all(scan(lines)).len() == 0,
{
    lemma_no_class_marker_names(lines);
    lemma_one_block_per_class_marker(lines);
}

/// A field or a signature takes the doc lines pending right above it, and
/// leaves none for the marker after it.
pub proof fn lemma_docs_go_to_next_marker(st: ScanModel, marker: Seq<char>)
    requires
        st.open is Some,
    ensures
        ({
            let after = step(st, classify(marker));
            let c = after.open.unwrap();
            &&& classify(marker) is Field ==> c.fields.last().doc == st.docs && after.docs.len()
                == 0
            &&& classify(marker) is Signature ==> c.methods.last().doc == st.docs
                && after.docs.len() == 0
        }),
{
}

/// Doc lines reach only the marker right after them: a line that is no
/// marker, between the doc lines and a field or a signature, leaves that
/// field or method with no documentation, and the method with no
/// parameters and no returns.
pub proof fn lemma_unrelated_line_severs_docs(st: ScanModel, other: Seq<char>, marker: Seq<char>)
    requires
        classify(other) is Other,
        st.open is Some,
    ensures
        ({
            let c = step(step(st, classify(other)), classify(marker)).open.unwrap();
            &&& classify(marker) is Field ==> c.fields.last().doc.len() == 0
            &&& classify(marker) is Signature ==> {
                &&& c.methods.last().doc.len() == 0
                &&& c.methods.last().params.len() == 0
                &&& c.methods.last().returns.len() == 0
            }
        }),
{
}

/// The parameters and returns pending at a signature go to that method and
/// to no other: a second signature right after it gets none.
pub proof fn lemma_signature_takes_pending(st: ScanModel, first: Seq<char>, second: Seq<char>)
    requires
        st.open is Some,
        classify(first) is Signature,
        classify(second) is Signature,
    ensures
        ({
            let before = st.open.unwrap().methods;
            let ms = step(step(st, classify(first)), classify(second)).open.unwrap().methods;
            &&& ms.len() == before.len() + 2
            &&& ms.subrange(0, before.len() as int) == before
            &&& ms[before.len() as int].params == st.params
            &&& ms[before.len() as int].returns == st.returns
            &&& ms[before.len() as int].doc == st.docs
            &&& ms[before.len() + 1int].params.len() == 0
            &&& ms[before.len() + 1int].returns.len() == 0
            &&& ms[before.len() + 1int].doc.len() == 0
        }),
{
    let before = st.open.unwrap().methods;
    let ms = step(step(st, classify(first)), classify(second)).open.unwrap().methods;
    assert(ms.subrange(0, before.len() as int) =~= before);
}

/// The documentation of a file depends on its lines alone: the same lines
/// give the same text, byte for byte, every time.
pub proof fn lemma_output_determined_by_lines(a: Seq<Seq<char>>, b: Seq<Seq<char>>)
    requires
        a == b,
    ensures
        render_all(scan(a)) == render_all(scan(b)),
{
}

proof fn lemma_one_class_prefix(lines: Seq<Seq<char>>)
    requires
        lines.len() > 0,
        classify(lines[0]) is Class,
        forall|i: int| 0 < i < lines.len() ==> !(classify(#[trigger] lines[i]) is Class),
    ensures
        scan_state(lines).open is Some,
        scan_state(lines).emitted.len() == 0,
        field_names(scan_state(lines).open.unwrap().fields) == field_markers(lines),
        method_names(scan_state(lines).open.unwrap().methods) == method_markers(lines),
    decreases lines.len(),
{
    let init = lines.drop_last();
    if lines.len() == 1 {
        assert(init =~= seq![]);
        assert(field_markers(init) =~= seq![]);
        assert(method_markers(init) =~= seq![]);
        assert(field_names(scan_state(lines).open.unwrap().fields) =~= field_markers(lines));
        assert(method_names(scan_state(lines).open.unwrap().methods) =~= method_markers(lines));
    } else {
        assert forall|i: int| 0 < i < init.len() implies !(classify(#[trigger] init[i]) is Class) by {
            assert(init[i] == lines[i]);
        }
        assert(init[0] == lines[0]);
        lemma_one_class_prefix(init);
        assert(!(classify(lines[lines.len() - 1]) is Class));
        let c0 = scan_state(init).open.unwrap();
        let c1 = scan_state(lines).open.unwrap();
        assert(field_names(c1.fields) =~= field_names(c0.fields) + field_name_of(
            classify(lines.last()),
        ));
        assert(method_names(c1.methods) =~= method_names(c0.methods) + method_name_of(
            classify(lines.last()),
        ));
    }
}

/// Within a class, fields and methods keep the order of their marker lines:
/// for a file that opens one class on its first line, the emitted class
/// lists exactly the field markers and the signatures of the file, in line
/// order.
pub proof fn lemma_source_order_kept(lines: Seq<Seq<char>>)
    requires
        lines.len() > 0,
        classify(lines[0]) is Class,
        forall|i: int| 0 < i < lines.len() ==> !(classify(#[trigger] lines[i]) is Class),
    ensures
        scan(lines).len() == 1,
        field_names(scan(lines)[0].fields) == field_markers(lines),
        method_names(scan(lines)[0].methods) == method_markers(lines),
{
    lemma_one_class_prefix(lines);
}

proof fn lemma_run_end_full(s: Seq<char>, i: int, hi: int, k: Run)
    requires
        0 <= i <= hi <= s.len(),
        forall|j: int| i <= j < hi ==> #[trigger] in_run(k, s[j]),
    ensures
        run_end(s, i, hi, k) == hi,
    decreases hi - i,
{
    if i < hi {
        lemma_run_end_full(s, i + 1, hi, k);
    }
}

proof fn lemma_last_sep_at(s: Seq<char>, c: int, m: int, j: int)
    requires
        c <= m < j <= s.len(),
        is_sep(s[m]),
        forall|t: int| m < t < j ==> !is_sep(#[trigger] s[t]),
    ensures
        last_sep(s, c, j) == m,
    decreases j - m,
{
    if j > m + 1 {
        lemma_last_sep_at(s, c, m, j - 1);
    }
}

/// The separator of a signature decides the access: `function Owner:member`
/// documents the instance member `member`, `function Owner.member` the
/// static member `member`.
pub proof fn lemma_separator_decides_access(owner: Seq<char>, sep: char, member: Seq<char>)
    requires
        owner.len() > 0,
        member.len() > 0,
        forall|i: int| 0 <= i < owner.len() ==> is_word(#[trigger] owner[i]),
        forall|i: int| 0 <= i < member.len() ==> is_word(#[trigger] member[i]),
        is_sep(sep),
    ensures
        classify("function"@ + seq![' '] + owner + seq![sep] + member) == (MarkerModel::Signature {
            name: member,
            is_instance: sep == ':',
        }),
{
    reveal_strlit("function");
    reveal_strlit("@class");
    reveal_strlit("@field");
    reveal_strlit("@param");
    reveal_strlit("@return");
    let s = "function"@ + seq![' '] + owner + seq![sep] + member;
    let n = s.len() as int;
    let k = 9 + owner.len() as int;
    assert forall|j: int| 9 <= j < n && j != k implies is_word(#[trigger] s[j]) by {
        if j < k {
            assert(s[j] == owner[j - 9]);
        } else {
            assert(s[j] == member[j - k - 1]);
        }
    }
    assert(s[k] == sep);
    assert(s[n - 1] == member[member.len() - 1]);
    assert(is_word(s[9]));
    assert(s[8] == ' ');
    assert(s[0] == 'f');
    assert(s.subrange(0, 6)[0] == 'f');
    assert(s.subrange(0, 7)[0] == 'f');
    assert forall|j: int| 9 <= j < n implies #[trigger] in_run(Run::Path, s[j]) by {
        if j != k {
            assert(is_word(s[j]));
        }
    }
    lemma_run_end_full(s, 9, n, Run::Path);
    assert forall|t: int| k < t < n implies !is_sep(#[trigger] s[t]) by {
        assert(is_word(s[t]));
    }
    lemma_last_sep_at(s, 9, k, n);
    assert(run_end(s, 9, n, Run::Space) == 9);
    assert(run_end(s, 8, n, Run::Space) == 9);
    assert(s.subrange(0, 8) =~= "function"@);
    assert(s.subrange(k + 1, n) =~= member);
}

/// A `?` right after a field's name marks the field optional and is no part
/// of its name: `@field name? type` and `@field name type` document the
/// same name and type, the first optional and the second not.
pub proof fn lemma_field_optionality(name: Seq<char>, optional: bool, ty: Seq<char>)
    requires
        name.len() > 0,
        forall|i: int| 0 <= i < name.len() ==> is_word(#[trigger] name[i]),
        ty.len() > 0,
        !is_space(ty[0]),
        !is_space(ty[ty.len() - 1]),
    ensures
        classify(
            "@field"@ + seq![' '] + name + (if optional {
                seq!['?']
            } else {
                seq![]
            }) + seq![' '] + ty,
        ) == (MarkerModel::Field { name, optional, ty }),
{
    reveal_strlit("@class");
    reveal_strlit("@field");
    let q: Seq<char> = if optional {
        seq!['?']
    } else {
        seq![]
    };
    let s = "@field"@ + seq![' '] + name + q + seq![' '] + ty;
    let n = s.len() as int;
    let e = 7 + name.len() as int;
    let e2 = e + q.len() as int;
    assert(s[0] == '@');
    assert(s[6] == ' ');
    assert(s.subrange(0, 6)[1] == 'f');
    assert(s.subrange(0, 6) =~= "@field"@);
    assert(s[n - 1] == ty[ty.len() - 1]);
    assert(is_word(s[7]));
    assert(run_end(s, 7, n, Run::Space) == 7);
    assert(run_end(s, 6, n, Run::Space) == 7);
    assert forall|j: int| 7 <= j < e implies #[trigger] in_run(Run::Word, s[j]) by {
        assert(s[j] == name[j - 7]);
    }
    lemma_run_end_full(s, 7, e, Run::Word);
    assert(s[e] == if optional {
        '?'
    } else {
        ' '
    });
    assert(run_end(s, 7, n, Run::Word) == run_end(s, 7, e, Run::Word)) by {
        lemma_run_end_word_prefix(s, 7, e, n);
    }
    assert(s[e2] == ' ');
    assert(s[e2 + 1] == ty[0]);
    assert(run_end(s, e2 + 1, n, Run::Space) == e2 + 1);
    assert(run_end(s, e2, n, Run::Space) == e2 + 1);
    assert(s.subrange(7, e) =~= name);
    assert(s.subrange(e2 + 1, n) =~= ty);
}

proof fn lemma_run_end_word_prefix(s: Seq<char>, i: int, e: int, n: int)
    requires
        0 <= i <= e < n <= s.len(),
        forall|j: int| i <= j < e ==> #[trigger] in_run(Run::Word, s[j]),
        !in_run(Run::Word, s[e]),
    ensures
        run_end(s, i, n, Run::Word) == e,
        run_end(s, i, e, Run::Word) == e,
    decreases e - i,
{
    if i < e {
        lemma_run_end_word_prefix(s, i + 1, e, n);
    }
}

} // verus!
