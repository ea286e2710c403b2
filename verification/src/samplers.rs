//! Texture-binding annotations: `uniform sampler2D <name> @ <path>;` binds a
//! sampler to an image file, and leaves `uniform sampler2D <name>;` in the
//! source.

use crate::text::all_ascii;
use crate::text::ascii_bytes;
use crate::text::bytes_of;
use crate::text::contains;
use crate::text::contains_pattern;
use crate::text::copy_range;
use crate::text::find_first_of;
use crate::text::first_of;
use crate::text::matches_at;
use crate::text::matches_pattern;
use crate::text::same_bytes;
use crate::text::trim;
use crate::text::trim_range;
use vstd::prelude::*;

verus! {

pub const SEMICOLON: u8 = 59;

pub const AT_SIGN: u8 = 64;

/// What a sampler declaration begins with.
pub open spec fn declaration() -> Seq<u8> {
    ascii_bytes("uniform sampler2D "@)
}

/// The declaration of the reserved sampler that reads the previous frame.
pub open spec fn feedback_declaration() -> Seq<u8> {
    ascii_bytes("uniform sampler2D previous"@)
}

/// Whether the source asks for feedback rendering: the reserved declaration
/// stands somewhere in it.
pub open spec fn asks_feedback(text: Seq<u8>) -> bool {
    contains(text, feedback_declaration())
}

/// A sampler name bound to the path of an image.
pub struct Binding {
    pub name: Seq<u8>,
    pub path: Seq<u8>,
}

/// An annotation found in the source: the binding it makes, and the span
/// `from..to` that it takes up, from its `@` up to the semicolon that ends the
/// declaration, the semicolon left out.
pub struct Annotation {
    pub binding: Binding,
    pub from: int,
    pub to: int,
}

/// The annotation of the sampler declaration that begins at `at`, if one
/// begins there and has an annotation: behind the declaration's beginning an
/// `@` comes before any semicolon, and a semicolon comes behind the `@`. The
/// name is what stands before the `@`, the path what stands between the `@`
/// and the semicolon, both without the white space around them.
pub open spec fn annotation_at(text: Seq<u8>, at: int) -> Option<Annotation> {
    let start = at + declaration().len();
    let mark = first_of(text, SEMICOLON, AT_SIGN, start);
    let end = first_of(text, SEMICOLON, SEMICOLON, mark + 1);
    if matches_at(text, declaration(), at) && mark < text.len() && text[mark] == AT_SIGN && end
        < text.len() {
        Some(
            Annotation {
                binding: Binding {
                    name: trim(text.subrange(start, mark)),
                    path: trim(text.subrange(mark + 1, end)),
                },
                from: mark,
                to: end,
            },
        )
    } else {
        None
    }
}

/// `list` with `binding` in it: in the place of the binding of the same
/// name, or at the end if the name is new.
pub open spec fn insert(list: Seq<Binding>, binding: Binding) -> Seq<Binding>
    decreases list.len(),
{
    if list.len() == 0 {
        seq![binding]
    } else if list[0].name == binding.name {
        seq![binding] + list.drop_first()
    } else {
        seq![list[0]] + insert(list.drop_first(), binding)
    }
}

/// The bindings made by the annotations of the declarations that begin
/// before index `upto`, each name once, in the order in which the names
/// first occur; a later annotation of a name replaces the path of an earlier
/// one.
pub open spec fn bindings_upto(text: Seq<u8>, upto: int) -> Seq<Binding>
    decreases upto,
{
    if upto <= 0 {
        Seq::empty()
    } else {
        let before = bindings_upto(text, upto - 1);
        match annotation_at(text, upto - 1) {
            Some(annotation) => insert(before, annotation.binding),
            None => before,
        }
    }
}

/// The texture bindings that the source makes.
pub open spec fn bindings(text: Seq<u8>) -> Seq<Binding> {
    bindings_upto(text, text.len() as int)
}

/// Whether the byte at `index` belongs to an annotation of a declaration
/// that begins before index `upto`.
pub open spec fn is_removed(text: Seq<u8>, upto: int, index: int) -> bool
    decreases upto,
{
    if upto <= 0 {
        false
    } else {
        is_removed(text, upto - 1, index) || match annotation_at(text, upto - 1) {
            Some(annotation) => annotation.from <= index && index < annotation.to,
            None => false,
        }
    }
}

/// The first `upto` bytes of the source without the bytes of annotations.
pub open spec fn cleaned_upto(text: Seq<u8>, upto: int) -> Seq<u8>
    decreases upto,
{
    if upto <= 0 {
        Seq::empty()
    } else if is_removed(text, text.len() as int, upto - 1) {
        cleaned_upto(text, upto - 1)
    } else {
        cleaned_upto(text, upto - 1).push(text[upto - 1])
    }
}

/// The source without its annotations: every byte stays but those of the
/// annotations.
pub open spec fn cleaned(text: Seq<u8>) -> Seq<u8> {
    cleaned_upto(text, text.len() as int)
}

// ------------------------------------------------------------

/// A binding, as bytes.
pub struct Found {
    pub name: Vec<u8>,
    pub path: Vec<u8>,
}

impl View for Found {
    type V = Binding;

    open spec fn view(&self) -> Binding {
        Binding { name: self.name@, path: self.path@ }
    }
}

/// The bindings that the found ones stand for.
pub open spec fn found_view(list: Seq<Found>) -> Seq<Binding> {
    Seq::new(list.len(), |i: int| list[i]@)
}

proof fn lemma_insert(list: Seq<Binding>, binding: Binding, at: int)
    requires
        0 <= at <= list.len(),
        forall|i: int| 0 <= i < at ==> list[i].name != binding.name,
        at < list.len() ==> list[at].name == binding.name,
    ensures
        insert(list, binding) == (if at < list.len() {
            list.update(at, binding)
        } else {
            list.push(binding)
        }),
    decreases at,
{
    if list.len() == 0 {
        assert(list.push(binding) =~= seq![binding]);
    } else if at == 0 {
        assert(seq![binding] + list.drop_first() =~= list.update(0, binding));
    } else {
        let rest = list.drop_first();
        assert forall|i: int| 0 <= i < at - 1 implies rest[i].name != binding.name by {
            assert(rest[i] == list[i + 1]);
        }
        lemma_insert(rest, binding, at - 1);
        if at < list.len() {
            assert(seq![list[0]] + rest.update(at - 1, binding) =~= list.update(at, binding));
        } else {
            assert(seq![list[0]] + rest.push(binding) =~= list.push(binding));
        }
    }
}

/// Puts the binding into the list.
fn insert_found(list: &mut Vec<Found>, found: Found)
    ensures
        found_view(final(list)@) == insert(found_view(old(list)@), found@),
{
    let ghost before = found_view(list@);
    let mut at: usize = 0;
    while at < list.len()
        invariant
            at <= list@.len(),
            list@ == old(list)@,
            before == found_view(list@),
            forall|i: int| 0 <= i < at ==> before[i].name != found@.name,
        decreases list@.len() - at,
    {
        if same_bytes(&list[at].name, &found.name) {
            proof {
                lemma_insert(before, found@, at as int);
            }
            list.set(at, found);
            proof {
                assert(found_view(list@) =~= before.update(at as int, found@));
            }
            return ;
        }
        at += 1;
    }
    proof {
        lemma_insert(before, found@, at as int);
    }
    list.push(found);
    proof {
        assert(found_view(list@) =~= before.push(found@));
    }
}

/// Marks the bytes `from..to`.
fn mark_span(marks: &mut Vec<bool>, from: usize, to: usize)
    requires
        from <= to <= old(marks)@.len(),
    ensures
        final(marks)@.len() == old(marks)@.len(),
        forall|i: int|
            0 <= i < old(marks)@.len() ==> final(marks)@[i] == (old(marks)@[i] || (from <= i && i
                < to)),
{
    let mut at: usize = from;
    while at < to
        invariant
            from <= at <= to <= marks@.len(),
            marks@.len() == old(marks)@.len(),
            forall|i: int|
                0 <= i < marks@.len() ==> marks@[i] == (old(marks)@[i] || (from <= i && i < at)),
        decreases to - at,
    {
        marks.set(at, true);
        at += 1;
    }
}

/// Finds the texture bindings of the source and takes their annotations out
/// of it.
pub(crate) fn take_annotations(text: &[u8]) -> (found: (Vec<Found>, Vec<u8>))
    requires
        all_ascii(text@),
    ensures
        found_view(found.0@) == bindings(text@),
        found.1@ == cleaned(text@),
        all_ascii(found.1@),
        forall|i: int|
            0 <= i < found.0@.len() ==> all_ascii(found.0@[i].name@) && all_ascii(
                found.0@[i].path@,
            ),
{
    proof {
        reveal_strlit("uniform sampler2D ");
    }
    let pattern = bytes_of("uniform sampler2D ");
    let mut list: Vec<Found> = Vec::new();
    let mut marks: Vec<bool> = Vec::new();
    let mut at: usize = 0;
    while at < text.len()
        invariant
            at <= text@.len(),
            marks@.len() == at,
            forall|i: int| 0 <= i < at ==> !marks@[i],
        decreases text@.len() - at,
    {
        marks.push(false);
        at += 1;
    }
    at = 0;
    proof {
        assert(found_view(list@) =~= bindings_upto(text@, 0));
    }
    while at < text.len()
        invariant
            at <= text@.len(),
            all_ascii(text@),
            pattern@ == declaration(),
            pattern@.len() == 18,
            marks@.len() == text@.len(),
            found_view(list@) == bindings_upto(text@, at as int),
            forall|i: int| 0 <= i < marks@.len() ==> marks@[i] == is_removed(text@, at as int, i),
            forall|i: int|
                0 <= i < list@.len() ==> all_ascii(list@[i].name@) && all_ascii(list@[i].path@),
        decreases text@.len() - at,
    {
        if matches_pattern(text, pattern, at) {
            let start: usize = at + pattern.len();
            let mark: usize = find_first_of(text, SEMICOLON, AT_SIGN, start);
            if mark < text.len() && text[mark] == AT_SIGN {
                let end: usize = find_first_of(text, SEMICOLON, SEMICOLON, mark + 1);
                if end < text.len() {
                    let (name_from, name_to) = trim_range(text, start, mark);
                    let (path_from, path_to) = trim_range(text, mark + 1, end);
                    let found = Found {
                        name: copy_range(text, name_from, name_to),
                        path: copy_range(text, path_from, path_to),
                    };
                    let ghost before = list@;
                    insert_found(&mut list, found);
                    mark_span(&mut marks, mark, end);
                    proof {
                        lemma_found_ascii(before, list@, found);
                    }
                }
            }
        }
        at += 1;
    }
    let mut code: Vec<u8> = Vec::new();
    at = 0;
    while at < text.len()
        invariant
            at <= text@.len(),
            all_ascii(text@),
            all_ascii(code@),
            marks@.len() == text@.len(),
            forall|i: int|
                0 <= i < marks@.len() ==> marks@[i] == is_removed(text@, text@.len() as int, i),
            code@ == cleaned_upto(text@, at as int),
        decreases text@.len() - at,
    {
        if !marks[at] {
            code.push(text[at]);
        }
        at += 1;
    }
    (list, code)
}

/// Inserting a binding of ASCII bytes among such bindings leaves only such
/// bindings.
proof fn lemma_found_ascii(before: Seq<Found>, after: Seq<Found>, found: Found)
    requires
        forall|i: int|
            0 <= i < before.len() ==> all_ascii(before[i].name@) && all_ascii(before[i].path@),
        all_ascii(found.name@),
        all_ascii(found.path@),
        found_view(after) == insert(found_view(before), found@),
    ensures
        forall|i: int|
            0 <= i < after.len() ==> all_ascii(after[i].name@) && all_ascii(after[i].path@),
{
    lemma_insert_members(found_view(before), found@);
    assert forall|i: int| 0 <= i < after.len() implies all_ascii(after[i].name@) && all_ascii(
        after[i].path@,
    ) by {
        let binding = found_view(after)[i];
        assert(binding == after[i]@);
        if binding != found@ {
            let j = choose|j: int| 0 <= j < before.len() && found_view(before)[j] == binding;
            assert(found_view(before)[j] == before[j]@);
        }
    }
}

/// Each binding of a list after an insertion is the inserted one or was in
/// the list before.
proof fn lemma_insert_members(list: Seq<Binding>, binding: Binding)
    ensures
        insert(list, binding).len() >= list.len(),
        forall|i: int|
            0 <= i < insert(list, binding).len() ==> insert(list, binding)[i] == binding || exists|
                j: int,
            |
                0 <= j < list.len() && list[j] == #[trigger] insert(list, binding)[i],
    decreases list.len(),
{
    let after = insert(list, binding);
    if list.len() == 0 {
    } else if list[0].name == binding.name {
        assert forall|i: int| 0 <= i < after.len() implies after[i] == binding || exists|j: int|
            0 <= j < list.len() && list[j] == #[trigger] after[i] by {
            if i > 0 {
                assert(list[i] == after[i]);
            }
        }
    } else {
        let rest = list.drop_first();
        lemma_insert_members(rest, binding);
        let tail = insert(rest, binding);
        assert forall|i: int| 0 <= i < after.len() implies after[i] == binding || exists|j: int|
            0 <= j < list.len() && list[j] == #[trigger] after[i] by {
            if i == 0 {
                assert(list[0] == after[0]);
            } else {
                assert(after[i] == tail[i - 1]);
                if tail[i - 1] != binding {
                    let j = choose|j: int| 0 <= j < rest.len() && rest[j] == tail[i - 1];
                    assert(list[j + 1] == after[i]);
                }
            }
        }
    }
}

/// Whether the source asks for feedback rendering.
pub(crate) fn find_feedback(text: &[u8]) -> (feedback: bool)
    ensures
        feedback == asks_feedback(text@),
{
    proof {
        reveal_strlit("uniform sampler2D previous");
    }
    contains_pattern(text, bytes_of("uniform sampler2D previous"))
}

// ------------------------------------------------------------
// The bindings as a mapping

/// The path that the list binds the name to, if it binds the name.
pub open spec fn lookup(list: Seq<Binding>, name: Seq<u8>) -> Option<Seq<u8>>
    decreases list.len(),
{
    if list.len() == 0 {
        None
    } else if list[0].name == name {
        Some(list[0].path)
    } else {
        lookup(list.drop_first(), name)
    }
}

/// The path of the last annotation of the name among the declarations that
/// begin before index `upto`, if there is one.
pub open spec fn last_path(text: Seq<u8>, upto: int, name: Seq<u8>) -> Option<Seq<u8>>
    decreases upto,
{
    if upto <= 0 {
        None
    } else {
        match annotation_at(text, upto - 1) {
            Some(annotation) => if annotation.binding.name == name {
                Some(annotation.binding.path)
            } else {
                last_path(text, upto - 1, name)
            },
            None => last_path(text, upto - 1, name),
        }
    }
}

/// Whether no two bindings of the list have the same name.
pub open spec fn names_unique(list: Seq<Binding>) -> bool {
    forall|i: int, j: int|
        0 <= i < j < list.len() ==> (#[trigger] list[i]).name != (#[trigger] list[j]).name
}

/// After an insertion the list binds the inserted name to the inserted
/// path, and every other name as before; and names that were unique stay
/// unique.
pub proof fn lemma_insert_binds(list: Seq<Binding>, binding: Binding, name: Seq<u8>)
    ensures
        lookup(insert(list, binding), name) == (if name == binding.name {
            Some(binding.path)
        } else {
            lookup(list, name)
        }),
        names_unique(list) ==> names_unique(insert(list, binding)),
        forall|i: int|
            0 <= i < insert(list, binding).len() ==> (#[trigger] insert(list, binding)[i]).name
                == binding.name || exists|j: int|
                0 <= j < list.len() && list[j].name == insert(list, binding)[i].name,
    decreases list.len(),
{
    let after = insert(list, binding);
    if list.len() == 0 {
        assert(after.drop_first() =~= Seq::empty());
        assert(after[0] == binding);
        assert(lookup(after.drop_first(), name) is None);
    } else if list[0].name == binding.name {
        assert(after.drop_first() =~= list.drop_first());
        assert(after[0] == binding);
        assert forall|i: int| 0 <= i < after.len() implies (#[trigger] after[i]).name
            == binding.name || exists|j: int|
            0 <= j < list.len() && list[j].name == after[i].name by {
            if i > 0 {
                assert(list[i].name == after[i].name);
            }
        }
        if names_unique(list) {
            assert forall|i: int, j: int| 0 <= i < j < after.len() implies (#[trigger] after[i]).name
                != (#[trigger] after[j]).name by {
                assert(after[j] == list[j]);
                if i > 0 {
                    assert(after[i] == list[i]);
                } else {
                    assert(list[0].name != list[j].name);
                }
            }
        }
    } else {
        let rest = list.drop_first();
        let tail = insert(rest, binding);
        lemma_insert_binds(rest, binding, name);
        assert(after.drop_first() =~= tail);
        assert(after[0] == list[0]);
        assert forall|i: int| 0 <= i < after.len() implies (#[trigger] after[i]).name
            == binding.name || exists|j: int|
            0 <= j < list.len() && list[j].name == after[i].name by {
            if i == 0 {
                assert(list[0].name == after[0].name);
            } else {
                assert(after[i] == tail[i - 1]);
                if tail[i - 1].name != binding.name {
                    let j = choose|j: int| 0 <= j < rest.len() && rest[j].name == tail[i - 1].name;
                    assert(list[j + 1].name == after[i].name);
                }
            }
        }
        if names_unique(list) {
            assert forall|i: int, j: int| 0 <= i < j < rest.len() implies (#[trigger] rest[i]).name
                != (#[trigger] rest[j]).name by {
                assert(rest[i] == list[i + 1] && rest[j] == list[j + 1]);
            }
            assert forall|i: int, j: int| 0 <= i < j < after.len() implies (#[trigger] after[i]).name
                != (#[trigger] after[j]).name by {
                assert(after[j] == tail[j - 1]);
                if i > 0 {
                    assert(after[i] == tail[i - 1]);
                } else {
                    if tail[j - 1].name != binding.name {
                        let k = choose|k: int|
                            0 <= k < rest.len() && rest[k].name == tail[j - 1].name;
                        assert(list[k + 1].name == rest[k].name);
                        assert(list[0].name != list[k + 1].name);
                    }
                }
            }
        }
    }
}

/// The bindings of a source are a mapping: no name is bound twice, and each
/// name is bound to the path of the last annotation that names it, whatever
/// the other annotations hold.
pub proof fn lemma_bindings_are_a_mapping(text: Seq<u8>, upto: int, name: Seq<u8>)
    ensures
        names_unique(bindings_upto(text, upto)),
        lookup(bindings_upto(text, upto), name) == last_path(text, upto, name),
    decreases upto,
{
    if upto > 0 {
        lemma_bindings_are_a_mapping(text, upto - 1, name);
        match annotation_at(text, upto - 1) {
            Some(annotation) => {
                lemma_insert_binds(bindings_upto(text, upto - 1), annotation.binding, name);
            },
            None => {},
        }
    }
}

} // verus!
