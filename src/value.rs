use vstd::prelude::*;

verus! {

/// A parsed configuration document: a tree of scalars, arrays and tables.
///
/// Numbers are kept in the JSON codec's own representation, which holds both
/// 64-bit integers and floats; the library never looks inside one.
#[derive(Debug)]
pub enum DocValue {
    Null,
    Boolean(bool),
    Number(serde_json::Number),
    String(String),
    Array(Vec<DocValue>),
    /// Key/value entries in document order.
    Table(Vec<(String, DocValue)>),
}

/// Why a document has no TOML rendering.
#[derive(Debug, PartialEq)]
pub enum SerializeError {
    /// The document root is not a table.
    NonTableRoot,
    /// A null value occurs somewhere in the document.
    NullValue,
    /// The TOML or JSON codec refused the document, with its message.
    Codec(String),
}

/// Whether a null value occurs anywhere in `v`.
pub open spec fn has_null(v: DocValue) -> bool
    decreases v,
{
    match v {
        DocValue::Null => true,
        DocValue::Array(items) => items_have_null(items@),
        DocValue::Table(entries) => entries_have_null(entries@),
        _ => false,
    }
}

/// Whether a null value occurs in any of `items`.
pub open spec fn items_have_null(items: Seq<DocValue>) -> bool
    decreases items,
{
    if items.len() == 0 {
        false
    } else {
        items_have_null(items.drop_last()) || has_null(items.last())
    }
}

/// Whether a null value occurs in the value of any of `entries`.
pub open spec fn entries_have_null(entries: Seq<(String, DocValue)>) -> bool
    decreases entries,
{
    if entries.len() == 0 {
        false
    } else {
        entries_have_null(entries.drop_last()) || has_null(entries.last().1)
    }
}

/// Whether no two of `entries` share a key.
pub open spec fn keys_unique(entries: Seq<(String, DocValue)>) -> bool {
    forall|i: int, j: int|
        0 <= i < j < entries.len() ==> #[trigger] entries[i].0@ != #[trigger] entries[j].0@
}

/// Whether every table in `v`, at any depth, has unique keys.
pub open spec fn well_formed(v: DocValue) -> bool
    decreases v,
{
    match v {
        DocValue::Array(items) => items_well_formed(items@),
        DocValue::Table(entries) => keys_unique(entries@) && entries_well_formed(entries@),
        _ => true,
    }
}

/// Whether each of `items` is well formed.
pub open spec fn items_well_formed(items: Seq<DocValue>) -> bool
    decreases items,
{
    if items.len() == 0 {
        true
    } else {
        items_well_formed(items.drop_last()) && well_formed(items.last())
    }
}

/// Whether the value of each of `entries` is well formed.
pub open spec fn entries_well_formed(entries: Seq<(String, DocValue)>) -> bool
    decreases entries,
{
    if entries.len() == 0 {
        true
    } else {
        entries_well_formed(entries.drop_last()) && well_formed(entries.last().1)
    }
}

/// What keeps `v` from being written as a TOML document, if anything.
pub open spec fn toml_problem(v: DocValue) -> Option<SerializeError> {
    if !(v is Table) {
        Some(SerializeError::NonTableRoot)
    } else if has_null(v) {
        Some(SerializeError::NullValue)
    } else {
        None
    }
}

/// Whether `v` can be written as a TOML document: a table with no null inside.
pub open spec fn toml_representable(v: DocValue) -> bool {
    toml_problem(v) is None
}

/// A null in one of `items` is a null among them.
proof fn lemma_item_null(items: Seq<DocValue>, i: int)
    requires
        0 <= i < items.len(),
        has_null(items[i]),
    ensures
        items_have_null(items),
    decreases items.len(),
{
    if i < items.len() - 1 {
        lemma_item_null(items.drop_last(), i);
    }
}

/// A null in the value of one of `entries` is a null among them.
proof fn lemma_entry_null(entries: Seq<(String, DocValue)>, i: int)
    requires
        0 <= i < entries.len(),
        has_null(entries[i].1),
    ensures
        entries_have_null(entries),
    decreases entries.len(),
{
    if i < entries.len() - 1 {
        lemma_entry_null(entries.drop_last(), i);
    }
}

/// Tells whether a null value occurs anywhere in `v`.
pub fn contains_null(v: &DocValue) -> (r: bool)
    ensures
        r == has_null(*v),
    decreases v,
{
    match v {
        DocValue::Null => true,
        DocValue::Array(items) => {
            let mut i: usize = 0;
            while i < items.len()
                invariant
                    0 <= i <= items.len(),
                    *v == DocValue::Array(*items),
                    !items_have_null(items@.subrange(0, i as int)),
                decreases items.len() - i,
            {
                proof {
                    assert(decreases_to!(*v => (*v)->Array_0));
                    assert(decreases_to!(*items => items[i as int]));
                }
                if contains_null(&items[i]) {
                    proof {
                        lemma_item_null(items@, i as int);
                    }
                    return true;
                }
                assert(items@.subrange(0, i + 1).drop_last() =~= items@.subrange(0, i as int));
                i = i + 1;
            }
            assert(items@.subrange(0, i as int) =~= items@);
            false
        },
        DocValue::Table(entries) => {
            let mut i: usize = 0;
            while i < entries.len()
                invariant
                    0 <= i <= entries.len(),
                    *v == DocValue::Table(*entries),
                    !entries_have_null(entries@.subrange(0, i as int)),
                decreases entries.len() - i,
            {
                proof {
                    assert(decreases_to!(*v => (*v)->Table_0));
                    assert(decreases_to!(*entries => entries[i as int]));
                    assert(decreases_to!(entries[i as int] => entries[i as int].1));
                }
                if contains_null(&entries[i].1) {
                    proof {
                        lemma_entry_null(entries@, i as int);
                    }
                    return true;
                }
                assert(entries@.subrange(0, i + 1).drop_last() =~= entries@.subrange(0, i as int));
                i = i + 1;
            }
            assert(entries@.subrange(0, i as int) =~= entries@);
            false
        },
        _ => false,
    }
}

/// Reports what keeps `v` from being written as a TOML document: the root
/// must be a table, and no null may occur anywhere.
pub fn check_toml_document(v: &DocValue) -> (r: Result<(), SerializeError>)
    ensures
        r is Ok <==> toml_representable(*v),
        r matches Err(e) ==> Some(e) == toml_problem(*v),
{
    if !matches!(v, DocValue::Table(_)) {
        Err(SerializeError::NonTableRoot)
    } else if contains_null(v) {
        Err(SerializeError::NullValue)
    } else {
        Ok(())
    }
}

} // verus!
