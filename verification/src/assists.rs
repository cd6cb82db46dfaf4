//! The assist that adds `is_empty` to an impl that has `len`. What the
//! syntax tree and the method lookup say about the place of the cursor comes
//! in as plain facts; what is decided here is whether the assist applies and
//! what it inserts where.
use vstd::prelude::*;

verus! {

/// A range of text, by the offsets of its first byte and of the byte after
/// its last.
#[derive(Clone, Copy, Debug, PartialEq, Eq, Hash, Structural)]
pub struct TextRange {
    pub start: u32,
    pub end: u32,
}

/// What is known about the function that the cursor stands in.
#[derive(Debug, PartialEq, Eq)]
pub struct FnAtCursor {
    /// The function's name, if it has one.
    pub name: Option<String>,
    /// The number of parameters besides `self`, if the function has a
    /// parameter list.
    pub params: Option<usize>,
    /// Whether the function stands in an impl.
    pub in_impl: bool,
    /// Whether the type of the impl has a method `is_empty`, in this impl or
    /// in another one.
    pub has_is_empty: bool,
    /// Where the method `len` of the impl's type stands in the text, if the
    /// method lookup finds it.
    pub len_range: Option<TextRange>,
}

#[derive(Clone, Copy, Debug, PartialEq, Eq, Hash, Structural)]
pub enum AssistKind {
    Generate,
}

/// An edit that is offered to the user: text to insert at an offset.
#[derive(Debug, PartialEq, Eq)]
pub struct Assist {
    pub id: String,
    pub kind: AssistKind,
    pub label: String,
    /// The range that the editor shows the assist for.
    pub target: TextRange,
    pub insert_at: u32,
    pub insert: String,
}

/// Whether the assist applies: the function under the cursor is named
/// `len`, has a parameter list without parameters besides `self`, stands in
/// an impl whose type has no `is_empty` yet, and is found by the method
/// lookup.
pub open spec fn applicable(f: FnAtCursor) -> bool {
    &&& f.name matches Some(name) && name@ == "len"@
    &&& f.params == Some(0usize)
    &&& f.in_impl
    &&& !f.has_is_empty
    &&& f.len_range is Some
}

/// Offers to generate `is_empty` from `len`. The method is inserted right
/// after `len`.
pub fn generate_is_empty_from_len(fn_at_cursor: Option<&FnAtCursor>) -> (r: Option<Assist>)
    ensures
        match r {
            Some(a) => fn_at_cursor matches Some(f) && applicable(*f) && a.target == f.len_range.unwrap()
                && a.insert_at == f.len_range.unwrap().end && a.insert@
                == "\n\n    pub fn is_empty(&self) -> bool {\n        self.len() == 0\n    }"@ && a.id@
                == "generate_is_empty_from_len"@ && a.label@
                == "Generate a is_empty impl from a len function"@ && a.kind == AssistKind::Generate,
            None => !(fn_at_cursor matches Some(f) && applicable(*f)),
        },
{
    let f = match fn_at_cursor {
        Some(f) => f,
        None => {
            return None;
        },
    };
    let fn_name = match &f.name {
        Some(n) => n,
        None => {
            return None;
        },
    };
    let len_name = "len".to_owned();
    if !(*fn_name == len_name) {
        return None;
    }
    match f.params {
        Some(n) => {
            if n != 0 {
                return None;
            }
        },
        None => {
            return None;
        },
    }
    if !f.in_impl {
        return None;
    }
    if f.has_is_empty {
        return None;
    }
    let range = match f.len_range {
        Some(r) => r,
        None => {
            return None;
        },
    };
    Some(
        Assist {
            id: "generate_is_empty_from_len".to_owned(),
            kind: AssistKind::Generate,
            label: "Generate a is_empty impl from a len function".to_owned(),
            target: range,
            insert_at: range.end,
            insert: "\n\n    pub fn is_empty(&self) -> bool {\n        self.len() == 0\n    }".to_owned(),
        },
    )
}

/// The text with `insert` put in at the byte offset `at`.
pub fn insert_text(text: &Vec<u8>, at: usize, insert: &Vec<u8>) -> (r: Vec<u8>)
    requires
        at <= text@.len(),
    ensures
        r@ == text@.take(at as int) + insert@ + text@.skip(at as int),
{
    let mut r: Vec<u8> = Vec::new();
    let mut i: usize = 0;
    while i < at
        invariant
            i <= at <= text.len(),
            r@ == text@.take(i as int),
        decreases at - i,
    {
        r.push(text[i]);
        assert(r@ =~= text@.take(i + 1));
        i += 1;
    }
    let mut k: usize = 0;
    while k < insert.len()
        invariant
            k <= insert.len(),
            at <= text.len(),
            r@ == text@.take(at as int) + insert@.take(k as int),
        decreases insert.len() - k,
    {
        r.push(insert[k]);
        assert(r@ =~= text@.take(at as int) + insert@.take(k + 1));
        k += 1;
    }
    assert(insert@.take(insert.len() as int) =~= insert@);
    let mut j: usize = at;
    while j < text.len()
        invariant
            at <= j <= text.len(),
            r@ == text@.take(at as int) + insert@ + text@.subrange(at as int, j as int),
        decreases text.len() - j,
    {
        r.push(text[j]);
        assert(r@ =~= text@.take(at as int) + insert@ + text@.subrange(at as int, j + 1));
        j += 1;
    }
    assert(text@.subrange(at as int, text.len() as int) =~= text@.skip(at as int));
    r
}

} // verus!
