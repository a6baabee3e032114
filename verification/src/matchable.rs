//! The field-access protocol: a per-type capability for field, length and
//! type-name lookup, together with `Record`, an explicit name-to-value
//! table that stands in for derived field access. Every method is total:
//! absence is `None`, never a fault.
use vstd::prelude::*;
use vstd::string::StringSliceAdditionalSpecFns;
use vstd::utf8::encode_utf8;
use crate::scalar::Scalar;
use crate::text::str_eq;

verus! {

/// The exec result of a field lookup agrees with the spec-level model.
pub open spec fn opt_ref_eq(r: Option<&Scalar>, m: Option<Scalar>) -> bool {
    match (r, m) {
        (Some(a), Some(b)) => *a == b,
        (None, None) => true,
        _ => false,
    }
}

/// Capability contract of a record type: field lookup by name and by path,
/// length, a type label, emptiness and none-ness, and whole-value equality.
/// Each executable method is pinned to a spec-level model function, so that
/// evaluating a condition against a value is a pure function of the model.
pub trait Matchable: Sized {
    /// Model: the length of the value, where the type supports one.
    spec fn m_length(&self) -> Option<usize>;

    /// Model: the scalar behind a field name, where one exists.
    spec fn m_field(&self, name: Seq<char>) -> Option<Scalar>;

    /// Model: the scalar behind a field path, where one exists.
    spec fn m_path(&self, path: Seq<Seq<char>>) -> Option<Scalar>;

    /// Model: the type's label.
    spec fn m_type_label(&self) -> Seq<char>;

    /// Model: whether the value counts as empty, where that is defined.
    spec fn m_is_empty(&self) -> Option<bool>;

    /// Model: whether the value is an absent option.
    spec fn m_is_none(&self) -> bool;

    /// Model: whole-value equality.
    spec fn m_eq(&self, other: &Self) -> bool;

    /// Get the length of the value if supported (strings, collections).
    fn get_length(&self) -> (r: Option<usize>)
        ensures
            r == self.m_length(),
    ;

    /// Get a field value by name; None when the field does not exist or
    /// field access is not supported.
    fn get_field<'a>(&'a self, name: &str) -> (r: Option<&'a Scalar>)
        ensures
            opt_ref_eq(r, self.m_field(name@)),
    ;

    /// Get a nested field value by path; None when the path cannot be
    /// traversed.
    fn get_field_path<'a>(&'a self, path: &[String]) -> (r: Option<&'a Scalar>)
        ensures
            opt_ref_eq(r, self.m_path(path.deep_view())),
    ;

    /// The type's label, used in diagnostics.
    fn type_label(&self) -> (r: &str)
        ensures
            r@ == self.m_type_label(),
    ;

    /// Whether the value counts as empty, where that is defined.
    fn is_empty(&self) -> (r: Option<bool>)
        ensures
            r == self.m_is_empty(),
    ;

    /// Whether the value is an absent option; false for most types.
    fn is_none(&self) -> (r: bool)
        ensures
            r == self.m_is_none(),
    ;

    /// Whole-value equality against another value of the same type.
    fn value_eq(&self, other: &Self) -> (r: bool)
        ensures
            r == self.m_eq(other),
    ;
}

// ---------------------------------------------------------------------------
// Record: an explicit name-to-value registration, standing in for derived
// field access on user structs. Fields hold either a scalar or a nested
// sub-record, which field paths traverse.
// ---------------------------------------------------------------------------

/// One registered field: a scalar value, or a nested sub-record.
pub enum FieldEntry {
    Value(Scalar),
    Sub(Record),
}

/// A record: a type label, an optional length, and named fields in
/// registration order. Lookup takes the first field of a given name.
pub struct Record {
    pub label: String,
    pub length: Option<usize>,
    pub fields: Vec<(String, FieldEntry)>,
}

/// The first entry registered under `name`, if any.
pub open spec fn lookup_entry(fields: Seq<(String, FieldEntry)>, name: Seq<char>) -> Option<
    FieldEntry,
>
    decreases fields.len(),
{
    if fields.len() == 0 {
        None
    } else if fields[0].0@ == name {
        Some(fields[0].1)
    } else {
        lookup_entry(fields.drop_first(), name)
    }
}

/// The scalar a path reaches from a field list: the head segment must name
/// an entry; a scalar entry is the result only at the last segment, and a
/// sub-record is traversed by the remaining segments.
pub open spec fn entries_path(
    fields: Seq<(String, FieldEntry)>,
    path: Seq<Seq<char>>,
) -> Option<Scalar>
    decreases fields, path.len(),
{
    if path.len() == 0 || fields.len() == 0 {
        None
    } else if fields[0].0@ == path[0] {
        match fields[0].1 {
            FieldEntry::Value(s) => if path.len() == 1 {
                Some(s)
            } else {
                None
            },
            FieldEntry::Sub(r) => if path.len() == 1 {
                None
            } else {
                entries_path(r.fields@, path.drop_first())
            },
        }
    } else {
        entries_path(fields.drop_first(), path)
    }
}

/// Deep equality of field lists: same names, same entries, pointwise.
pub open spec fn entries_eq(
    x: Seq<(String, FieldEntry)>,
    y: Seq<(String, FieldEntry)>,
) -> bool
    decreases x,
{
    x.len() == y.len() && forall|i: int|
        0 <= i < x.len() ==> ((#[trigger] x[i]).0@ == y[i].0@ && entry_eq(x[i].1, y[i].1))
}

/// Deep equality of two field entries.
pub open spec fn entry_eq(a: FieldEntry, b: FieldEntry) -> bool
    decreases a,
{
    match (a, b) {
        (FieldEntry::Value(s), FieldEntry::Value(t)) => s.eq_val(t),
        (FieldEntry::Sub(r), FieldEntry::Sub(q)) => r.label@ == q.label@ && r.length == q.length
            && entries_eq(r.fields@, q.fields@),
        _ => false,
    }
}

/// Skipping fields whose names all miss does not change a lookup.
proof fn lemma_lookup_skip(fields: Seq<(String, FieldEntry)>, name: Seq<char>, i: int)
    requires
        0 <= i <= fields.len(),
        forall|j: int| 0 <= j < i ==> fields[j].0@ != name,
    ensures
        lookup_entry(fields, name) == lookup_entry(fields.skip(i), name),
    decreases i,
{
    if i == 0 {
        assert(fields.skip(0) =~= fields);
    } else {
        lemma_lookup_skip(fields, name, i - 1);
        let s = fields.skip(i - 1);
        assert(s.len() == fields.len() - i + 1);
        assert(s[0] == fields[i - 1]);
        assert(s[0].0@ != name);
        assert(lookup_entry(s, name) == lookup_entry(s.drop_first(), name));
        assert(s.drop_first() =~= fields.skip(i));
    }
}

/// A path lookup resolves through the first entry named by the head
/// segment.
proof fn lemma_entries_path_via_lookup(fields: Seq<(String, FieldEntry)>, path: Seq<Seq<char>>)
    requires
        path.len() > 0,
    ensures
        entries_path(fields, path) == (match lookup_entry(fields, path[0]) {
            None => None,
            Some(FieldEntry::Value(s)) => if path.len() == 1 {
                Some(s)
            } else {
                None::<Scalar>
            },
            Some(FieldEntry::Sub(r)) => if path.len() == 1 {
                None
            } else {
                entries_path(r.fields@, path.drop_first())
            },
        }),
    decreases fields.len(),
{
    if fields.len() > 0 && fields[0].0@ != path[0] {
        lemma_entries_path_via_lookup(fields.drop_first(), path);
    }
}

/// Find the first field with the given name, as an index.
fn find_entry_idx(fields: &Vec<(String, FieldEntry)>, name: &str) -> (r: Option<usize>)
    ensures
        match r {
            Some(i) => i < fields@.len() && fields@[i as int].0@ == name@ && lookup_entry(
                fields@,
                name@,
            ) == Some(fields@[i as int].1),
            None => lookup_entry(fields@, name@) is None,
        },
{
    let mut i: usize = 0;
    while i < fields.len()
        invariant
            i <= fields@.len(),
            forall|j: int| 0 <= j < i ==> fields@[j].0@ != name@,
        decreases fields@.len() - i,
    {
        if str_eq(fields[i].0.as_str(), name) {
            proof {
                lemma_lookup_skip(fields@, name@, i as int);
                assert(fields@.skip(i as int)[0] == fields@[i as int]);
            }
            return Some(i);
        }
        i = i + 1;
    }
    proof {
        lemma_lookup_skip(fields@, name@, fields@.len() as int);
        assert(fields@.skip(fields@.len() as int).len() == 0);
    }
    None
}

/// Resolve a path against a record, traversing sub-records.
fn record_path_lookup<'a>(rec: &'a Record, path: &[String]) -> (r: Option<&'a Scalar>)
    ensures
        opt_ref_eq(r, entries_path(rec.fields@, path.deep_view())),
    decreases rec,
{
    proof {
        assert(path.deep_view().len() == path@.len());
    }
    if path.len() == 0 {
        None
    } else {
        proof {
            assert(path.deep_view()[0] == path@[0]@);
            lemma_entries_path_via_lookup(rec.fields@, path.deep_view());
        }
        match find_entry_idx(&rec.fields, path[0].as_str()) {
            None => None,
            Some(i) => {
                match &rec.fields[i].1 {
                    FieldEntry::Value(s) => {
                        if path.len() == 1 {
                            Some(s)
                        } else {
                            None
                        }
                    },
                    FieldEntry::Sub(sub) => {
                        if path.len() == 1 {
                            None
                        } else {
                            let rest = &path[1..path.len()];
                            proof {
                                assert(rest.deep_view() =~= path.deep_view().drop_first());
                            }
                            record_path_lookup(sub, rest)
                        }
                    },
                }
            },
        }
    }
}

/// Deep equality of two field entries.
#[verifier::loop_isolation(false)]
fn entry_eq_exec(a: &FieldEntry, b: &FieldEntry) -> (r: bool)
    ensures
        r == entry_eq(*a, *b),
    decreases a,
{
    match (a, b) {
        (FieldEntry::Value(s), FieldEntry::Value(t)) => s.equals(t),
        (FieldEntry::Sub(x), FieldEntry::Sub(y)) => {
            let mut ok = str_eq(x.label.as_str(), y.label.as_str());
            ok = ok && match (x.length, y.length) {
                (Some(a1), Some(b1)) => a1 == b1,
                (None, None) => true,
                _ => false,
            };
            if !ok {
                return false;
            }
            if x.fields.len() != y.fields.len() {
                return false;
            }
            let mut i: usize = 0;
            while i < x.fields.len()
                invariant
                    i <= x.fields@.len(),
                    x.fields@.len() == y.fields@.len(),
                    forall|j: int| 0 <= j < i ==> ((#[trigger] x.fields@[j]).0@ == y.fields@[j].0@
                        && entry_eq(x.fields@[j].1, y.fields@[j].1)),
                decreases x.fields@.len() - i,
            {
                if !str_eq(x.fields[i].0.as_str(), y.fields[i].0.as_str()) {
                    proof {
                        assert(!((x.fields@[i as int]).0@ == y.fields@[i as int].0@));
                    }
                    return false;
                }
                if !entry_eq_exec(&x.fields[i].1, &y.fields[i].1) {
                    proof {
                        assert(!entry_eq(x.fields@[i as int].1, y.fields@[i as int].1));
                    }
                    return false;
                }
                proof {
                    assert((x.fields@[i as int]).0@ == y.fields@[i as int].0@);
                    assert(entry_eq(x.fields@[i as int].1, y.fields@[i as int].1));
                }
                i = i + 1;
            }
            true
        },
        _ => false,
    }
}

impl Record {
    /// An empty record with the given type label.
    pub fn new(label: &str) -> (r: Record)
        ensures
            r.label@ == label@,
            r.length is None,
            r.fields@.len() == 0,
    {
        Record { label: label.to_owned(), length: None, fields: Vec::new() }
    }

    /// The record, with one more scalar field registered under `name`.
    pub fn with_field(self, name: &str, value: Scalar) -> (r: Record)
        ensures
            r.label == self.label,
            r.length == self.length,
            r.fields@.len() == self.fields@.len() + 1,
            forall|i: int| 0 <= i < self.fields@.len() ==> r.fields@[i] == self.fields@[i],
            r.fields@.last().0@ == name@,
            r.fields@.last().1 == FieldEntry::Value(value),
    {
        let mut fields = self.fields;
        fields.push((name.to_owned(), FieldEntry::Value(value)));
        Record { label: self.label, length: self.length, fields }
    }

    /// The record, with a nested sub-record registered under `name`.
    pub fn with_sub(self, name: &str, sub: Record) -> (r: Record)
        ensures
            r.label == self.label,
            r.length == self.length,
            r.fields@.len() == self.fields@.len() + 1,
            forall|i: int| 0 <= i < self.fields@.len() ==> r.fields@[i] == self.fields@[i],
            r.fields@.last().0@ == name@,
            r.fields@.last().1 == FieldEntry::Sub(sub),
    {
        let mut fields = self.fields;
        fields.push((name.to_owned(), FieldEntry::Sub(sub)));
        Record { label: self.label, length: self.length, fields }
    }

    /// The record, with its length set.
    pub fn with_length(self, length: usize) -> (r: Record)
        ensures
            r.label == self.label,
            r.length == Some(length),
            r.fields == self.fields,
    {
        Record { label: self.label, length: Some(length), fields: self.fields }
    }
}

impl Matchable for Record {
    open spec fn m_length(&self) -> Option<usize> {
        self.length
    }

    open spec fn m_field(&self, name: Seq<char>) -> Option<Scalar> {
        match lookup_entry(self.fields@, name) {
            Some(FieldEntry::Value(s)) => Some(s),
            _ => None,
        }
    }

    open spec fn m_path(&self, path: Seq<Seq<char>>) -> Option<Scalar> {
        entries_path(self.fields@, path)
    }

    open spec fn m_type_label(&self) -> Seq<char> {
        self.label@
    }

    open spec fn m_is_empty(&self) -> Option<bool> {
        match self.length {
            Some(l) => Some(l == 0),
            None => None,
        }
    }

    open spec fn m_is_none(&self) -> bool {
        false
    }

    open spec fn m_eq(&self, other: &Self) -> bool {
        self.label@ == other.label@ && self.length == other.length && entries_eq(
            self.fields@,
            other.fields@,
        )
    }

    fn get_length(&self) -> (r: Option<usize>) {
        self.length
    }

    fn get_field<'a>(&'a self, name: &str) -> (r: Option<&'a Scalar>) {
        match find_entry_idx(&self.fields, name) {
            None => None,
            Some(i) => match &self.fields[i].1 {
                FieldEntry::Value(s) => Some(s),
                FieldEntry::Sub(_) => None,
            },
        }
    }

    fn get_field_path<'a>(&'a self, path: &[String]) -> (r: Option<&'a Scalar>) {
        record_path_lookup(self, path)
    }

    fn type_label(&self) -> (r: &str) {
        self.label.as_str()
    }

    fn is_empty(&self) -> (r: Option<bool>) {
        match self.length {
            Some(l) => Some(l == 0),
            None => None,
        }
    }

    fn is_none(&self) -> (r: bool) {
        false
    }

    fn value_eq(&self, other: &Self) -> (r: bool) {
        let ok = str_eq(self.label.as_str(), other.label.as_str()) && match (
            self.length,
            other.length,
        ) {
            (Some(a1), Some(b1)) => a1 == b1,
            (None, None) => true,
            _ => false,
        };
        if !ok {
            return false;
        }
        if self.fields.len() != other.fields.len() {
            return false;
        }
        let mut i: usize = 0;
        while i < self.fields.len()
            invariant
                i <= self.fields@.len(),
                self.fields@.len() == other.fields@.len(),
                forall|j: int| 0 <= j < i ==> ((#[trigger] self.fields@[j]).0@
                    == other.fields@[j].0@ && entry_eq(self.fields@[j].1, other.fields@[j].1)),
            decreases self.fields@.len() - i,
        {
            if !str_eq(self.fields[i].0.as_str(), other.fields[i].0.as_str()) {
                proof {
                    assert(!((self.fields@[i as int]).0@ == other.fields@[i as int].0@));
                }
                return false;
            }
            if !entry_eq_exec(&self.fields[i].1, &other.fields[i].1) {
                proof {
                    assert(!entry_eq(self.fields@[i as int].1, other.fields@[i as int].1));
                }
                return false;
            }
            proof {
                assert((self.fields@[i as int]).0@ == other.fields@[i as int].0@);
                assert(entry_eq(self.fields@[i as int].1, other.fields@[i as int].1));
            }
            i = i + 1;
        }
        true
    }
}

impl<'s> Matchable for &'s str {
    open spec fn m_length(&self) -> Option<usize> {
        Some(encode_utf8(self@).len() as usize)
    }

    open spec fn m_field(&self, name: Seq<char>) -> Option<Scalar> {
        None
    }

    open spec fn m_path(&self, path: Seq<Seq<char>>) -> Option<Scalar> {
        None
    }

    open spec fn m_type_label(&self) -> Seq<char> {
        "&str"@
    }

    open spec fn m_is_empty(&self) -> Option<bool> {
        Some(self@.len() == 0)
    }

    open spec fn m_is_none(&self) -> bool {
        false
    }

    open spec fn m_eq(&self, other: &Self) -> bool {
        self@ == other@
    }

    fn get_length(&self) -> (r: Option<usize>) {
        Some(self.len())
    }

    fn get_field<'a>(&'a self, name: &str) -> (r: Option<&'a Scalar>) {
        None
    }

    fn get_field_path<'a>(&'a self, path: &[String]) -> (r: Option<&'a Scalar>) {
        None
    }

    fn type_label(&self) -> (r: &str) {
        "&str"
    }

    fn is_empty(&self) -> (r: Option<bool>) {
        Some(self.unicode_len() == 0)
    }

    fn is_none(&self) -> (r: bool) {
        false
    }

    fn value_eq(&self, other: &Self) -> (r: bool) {
        str_eq(self, other)
    }
}

impl Matchable for String {
    open spec fn m_length(&self) -> Option<usize> {
        Some(encode_utf8(self@).len() as usize)
    }

    open spec fn m_field(&self, name: Seq<char>) -> Option<Scalar> {
        None
    }

    open spec fn m_path(&self, path: Seq<Seq<char>>) -> Option<Scalar> {
        None
    }

    open spec fn m_type_label(&self) -> Seq<char> {
        "alloc::string::String"@
    }

    open spec fn m_is_empty(&self) -> Option<bool> {
        Some(self@.len() == 0)
    }

    open spec fn m_is_none(&self) -> bool {
        false
    }

    open spec fn m_eq(&self, other: &Self) -> bool {
        self@ == other@
    }

    fn get_length(&self) -> (r: Option<usize>) {
        Some(self.as_str().len())
    }

    fn get_field<'a>(&'a self, name: &str) -> (r: Option<&'a Scalar>) {
        None
    }

    fn get_field_path<'a>(&'a self, path: &[String]) -> (r: Option<&'a Scalar>) {
        None
    }

    fn type_label(&self) -> (r: &str) {
        "alloc::string::String"
    }

    fn is_empty(&self) -> (r: Option<bool>) {
        Some(self.as_str().unicode_len() == 0)
    }

    fn is_none(&self) -> (r: bool) {
        false
    }

    fn value_eq(&self, other: &Self) -> (r: bool) {
        str_eq(self.as_str(), other.as_str())
    }
}

impl<T: Matchable> Matchable for Vec<T> {
    open spec fn m_length(&self) -> Option<usize> {
        Some(self@.len() as usize)
    }

    open spec fn m_field(&self, name: Seq<char>) -> Option<Scalar> {
        None
    }

    open spec fn m_path(&self, path: Seq<Seq<char>>) -> Option<Scalar> {
        None
    }

    open spec fn m_type_label(&self) -> Seq<char> {
        "alloc::vec::Vec"@
    }

    open spec fn m_is_empty(&self) -> Option<bool> {
        Some(self@.len() == 0)
    }

    open spec fn m_is_none(&self) -> bool {
        false
    }

    open spec fn m_eq(&self, other: &Self) -> bool {
        self@.len() == other@.len() && forall|i: int|
            0 <= i < self@.len() ==> #[trigger] self@[i].m_eq(&other@[i])
    }

    fn get_length(&self) -> (r: Option<usize>) {
        Some(self.len())
    }

    fn get_field<'a>(&'a self, name: &str) -> (r: Option<&'a Scalar>) {
        None
    }

    fn get_field_path<'a>(&'a self, path: &[String]) -> (r: Option<&'a Scalar>) {
        None
    }

    fn type_label(&self) -> (r: &str) {
        "alloc::vec::Vec"
    }

    fn is_empty(&self) -> (r: Option<bool>) {
        Some(self.len() == 0)
    }

    fn is_none(&self) -> (r: bool) {
        false
    }

    fn value_eq(&self, other: &Self) -> (r: bool) {
        if self.len() != other.len() {
            return false;
        }
        let mut i: usize = 0;
        while i < self.len()
            invariant
                i <= self@.len(),
                self@.len() == other@.len(),
                forall|j: int| 0 <= j < i ==> #[trigger] self@[j].m_eq(&other@[j]),
            decreases self@.len() - i,
        {
            if !self[i].value_eq(&other[i]) {
                return false;
            }
            i = i + 1;
        }
        true
    }
}

impl<T: Matchable> Matchable for Option<T> {
    open spec fn m_length(&self) -> Option<usize> {
        match self {
            Some(v) => v.m_length(),
            None => None,
        }
    }

    open spec fn m_field(&self, name: Seq<char>) -> Option<Scalar> {
        match self {
            Some(v) => v.m_field(name),
            None => None,
        }
    }

    open spec fn m_path(&self, path: Seq<Seq<char>>) -> Option<Scalar> {
        None
    }

    open spec fn m_type_label(&self) -> Seq<char> {
        "core::option::Option"@
    }

    open spec fn m_is_empty(&self) -> Option<bool> {
        Some(self is None)
    }

    open spec fn m_is_none(&self) -> bool {
        self is None
    }

    open spec fn m_eq(&self, other: &Self) -> bool {
        match (self, other) {
            (Some(a), Some(b)) => a.m_eq(b),
            (None, None) => true,
            _ => false,
        }
    }

    fn get_length(&self) -> (r: Option<usize>) {
        match self {
            Some(v) => v.get_length(),
            None => None,
        }
    }

    fn get_field<'a>(&'a self, name: &str) -> (r: Option<&'a Scalar>) {
        match self {
            Some(v) => v.get_field(name),
            None => None,
        }
    }

    fn get_field_path<'a>(&'a self, path: &[String]) -> (r: Option<&'a Scalar>) {
        None
    }

    fn type_label(&self) -> (r: &str) {
        "core::option::Option"
    }

    fn is_empty(&self) -> (r: Option<bool>) {
        match self {
            Some(_) => Some(false),
            None => Some(true),
        }
    }

    fn is_none(&self) -> (r: bool) {
        match self {
            Some(_) => false,
            None => true,
        }
    }

    fn value_eq(&self, other: &Self) -> (r: bool) {
        match (self, other) {
            (Some(a), Some(b)) => a.value_eq(b),
            (None, None) => true,
            _ => false,
        }
    }
}

impl Matchable for i8 {
    open spec fn m_length(&self) -> Option<usize> {
        None
    }

    open spec fn m_field(&self, name: Seq<char>) -> Option<Scalar> {
        None
    }

    open spec fn m_path(&self, path: Seq<Seq<char>>) -> Option<Scalar> {
        None
    }

    open spec fn m_type_label(&self) -> Seq<char> {
        "i8"@
    }

    open spec fn m_is_empty(&self) -> Option<bool> {
        None
    }

    open spec fn m_is_none(&self) -> bool {
        false
    }

    open spec fn m_eq(&self, other: &Self) -> bool {
        self == other
    }

    fn get_length(&self) -> (r: Option<usize>) {
        None
    }

    fn get_field<'a>(&'a self, name: &str) -> (r: Option<&'a Scalar>) {
        None
    }

    fn get_field_path<'a>(&'a self, path: &[String]) -> (r: Option<&'a Scalar>) {
        None
    }

    fn type_label(&self) -> (r: &str) {
        "i8"
    }

    fn is_empty(&self) -> (r: Option<bool>) {
        None
    }

    fn is_none(&self) -> (r: bool) {
        false
    }

    fn value_eq(&self, other: &Self) -> (r: bool) {
        *self == *other
    }
}

impl Matchable for i16 {
    open spec fn m_length(&self) -> Option<usize> {
        None
    }

    open spec fn m_field(&self, name: Seq<char>) -> Option<Scalar> {
        None
    }

    open spec fn m_path(&self, path: Seq<Seq<char>>) -> Option<Scalar> {
        None
    }

    open spec fn m_type_label(&self) -> Seq<char> {
        "i16"@
    }

    open spec fn m_is_empty(&self) -> Option<bool> {
        None
    }

    open spec fn m_is_none(&self) -> bool {
        false
    }

    open spec fn m_eq(&self, other: &Self) -> bool {
        self == other
    }

    fn get_length(&self) -> (r: Option<usize>) {
        None
    }

    fn get_field<'a>(&'a self, name: &str) -> (r: Option<&'a Scalar>) {
        None
    }

    fn get_field_path<'a>(&'a self, path: &[String]) -> (r: Option<&'a Scalar>) {
        None
    }

    fn type_label(&self) -> (r: &str) {
        "i16"
    }

    fn is_empty(&self) -> (r: Option<bool>) {
        None
    }

    fn is_none(&self) -> (r: bool) {
        false
    }

    fn value_eq(&self, other: &Self) -> (r: bool) {
        *self == *other
    }
}

impl Matchable for i32 {
    open spec fn m_length(&self) -> Option<usize> {
        None
    }

    open spec fn m_field(&self, name: Seq<char>) -> Option<Scalar> {
        None
    }

    open spec fn m_path(&self, path: Seq<Seq<char>>) -> Option<Scalar> {
        None
    }

    open spec fn m_type_label(&self) -> Seq<char> {
        "i32"@
    }

    open spec fn m_is_empty(&self) -> Option<bool> {
        None
    }

    open spec fn m_is_none(&self) -> bool {
        false
    }

    open spec fn m_eq(&self, other: &Self) -> bool {
        self == other
    }

    fn get_length(&self) -> (r: Option<usize>) {
        None
    }

    fn get_field<'a>(&'a self, name: &str) -> (r: Option<&'a Scalar>) {
        None
    }

    fn get_field_path<'a>(&'a self, path: &[String]) -> (r: Option<&'a Scalar>) {
        None
    }

    fn type_label(&self) -> (r: &str) {
        "i32"
    }

    fn is_empty(&self) -> (r: Option<bool>) {
        None
    }

    fn is_none(&self) -> (r: bool) {
        false
    }

    fn value_eq(&self, other: &Self) -> (r: bool) {
        *self == *other
    }
}

impl Matchable for i64 {
    open spec fn m_length(&self) -> Option<usize> {
        None
    }

    open spec fn m_field(&self, name: Seq<char>) -> Option<Scalar> {
        None
    }

    open spec fn m_path(&self, path: Seq<Seq<char>>) -> Option<Scalar> {
        None
    }

    open spec fn m_type_label(&self) -> Seq<char> {
        "i64"@
    }

    open spec fn m_is_empty(&self) -> Option<bool> {
        None
    }

    open spec fn m_is_none(&self) -> bool {
        false
    }

    open spec fn m_eq(&self, other: &Self) -> bool {
        self == other
    }

    fn get_length(&self) -> (r: Option<usize>) {
        None
    }

    fn get_field<'a>(&'a self, name: &str) -> (r: Option<&'a Scalar>) {
        None
    }

    fn get_field_path<'a>(&'a self, path: &[String]) -> (r: Option<&'a Scalar>) {
        None
    }

    fn type_label(&self) -> (r: &str) {
        "i64"
    }

    fn is_empty(&self) -> (r: Option<bool>) {
        None
    }

    fn is_none(&self) -> (r: bool) {
        false
    }

    fn value_eq(&self, other: &Self) -> (r: bool) {
        *self == *other
    }
}

impl Matchable for i128 {
    open spec fn m_length(&self) -> Option<usize> {
        None
    }

    open spec fn m_field(&self, name: Seq<char>) -> Option<Scalar> {
        None
    }

    open spec fn m_path(&self, path: Seq<Seq<char>>) -> Option<Scalar> {
        None
    }

    open spec fn m_type_label(&self) -> Seq<char> {
        "i128"@
    }

    open spec fn m_is_empty(&self) -> Option<bool> {
        None
    }

    open spec fn m_is_none(&self) -> bool {
        false
    }

    open spec fn m_eq(&self, other: &Self) -> bool {
        self == other
    }

    fn get_length(&self) -> (r: Option<usize>) {
        None
    }

    fn get_field<'a>(&'a self, name: &str) -> (r: Option<&'a Scalar>) {
        None
    }

    fn get_field_path<'a>(&'a self, path: &[String]) -> (r: Option<&'a Scalar>) {
        None
    }

    fn type_label(&self) -> (r: &str) {
        "i128"
    }

    fn is_empty(&self) -> (r: Option<bool>) {
        None
    }

    fn is_none(&self) -> (r: bool) {
        false
    }

    fn value_eq(&self, other: &Self) -> (r: bool) {
        *self == *other
    }
}

impl Matchable for isize {
    open spec fn m_length(&self) -> Option<usize> {
        None
    }

    open spec fn m_field(&self, name: Seq<char>) -> Option<Scalar> {
        None
    }

    open spec fn m_path(&self, path: Seq<Seq<char>>) -> Option<Scalar> {
        None
    }

    open spec fn m_type_label(&self) -> Seq<char> {
        "isize"@
    }

    open spec fn m_is_empty(&self) -> Option<bool> {
        None
    }

    open spec fn m_is_none(&self) -> bool {
        false
    }

    open spec fn m_eq(&self, other: &Self) -> bool {
        self == other
    }

    fn get_length(&self) -> (r: Option<usize>) {
        None
    }

    fn get_field<'a>(&'a self, name: &str) -> (r: Option<&'a Scalar>) {
        None
    }

    fn get_field_path<'a>(&'a self, path: &[String]) -> (r: Option<&'a Scalar>) {
        None
    }

    fn type_label(&self) -> (r: &str) {
        "isize"
    }

    fn is_empty(&self) -> (r: Option<bool>) {
        None
    }

    fn is_none(&self) -> (r: bool) {
        false
    }

    fn value_eq(&self, other: &Self) -> (r: bool) {
        *self == *other
    }
}

impl Matchable for u8 {
    open spec fn m_length(&self) -> Option<usize> {
        None
    }

    open spec fn m_field(&self, name: Seq<char>) -> Option<Scalar> {
        None
    }

    open spec fn m_path(&self, path: Seq<Seq<char>>) -> Option<Scalar> {
        None
    }

    open spec fn m_type_label(&self) -> Seq<char> {
        "u8"@
    }

    open spec fn m_is_empty(&self) -> Option<bool> {
        None
    }

    open spec fn m_is_none(&self) -> bool {
        false
    }

    open spec fn m_eq(&self, other: &Self) -> bool {
        self == other
    }

    fn get_length(&self) -> (r: Option<usize>) {
        None
    }

    fn get_field<'a>(&'a self, name: &str) -> (r: Option<&'a Scalar>) {
        None
    }

    fn get_field_path<'a>(&'a self, path: &[String]) -> (r: Option<&'a Scalar>) {
        None
    }

    fn type_label(&self) -> (r: &str) {
        "u8"
    }

    fn is_empty(&self) -> (r: Option<bool>) {
        None
    }

    fn is_none(&self) -> (r: bool) {
        false
    }

    fn value_eq(&self, other: &Self) -> (r: bool) {
        *self == *other
    }
}

impl Matchable for u16 {
    open spec fn m_length(&self) -> Option<usize> {
        None
    }

    open spec fn m_field(&self, name: Seq<char>) -> Option<Scalar> {
        None
    }

    open spec fn m_path(&self, path: Seq<Seq<char>>) -> Option<Scalar> {
        None
    }

    open spec fn m_type_label(&self) -> Seq<char> {
        "u16"@
    }

    open spec fn m_is_empty(&self) -> Option<bool> {
        None
    }

    open spec fn m_is_none(&self) -> bool {
        false
    }

    open spec fn m_eq(&self, other: &Self) -> bool {
        self == other
    }

    fn get_length(&self) -> (r: Option<usize>) {
        None
    }

    fn get_field<'a>(&'a self, name: &str) -> (r: Option<&'a Scalar>) {
        None
    }

    fn get_field_path<'a>(&'a self, path: &[String]) -> (r: Option<&'a Scalar>) {
        None
    }

    fn type_label(&self) -> (r: &str) {
        "u16"
    }

    fn is_empty(&self) -> (r: Option<bool>) {
        None
    }

    fn is_none(&self) -> (r: bool) {
        false
    }

    fn value_eq(&self, other: &Self) -> (r: bool) {
        *self == *other
    }
}

impl Matchable for u32 {
    open spec fn m_length(&self) -> Option<usize> {
        None
    }

    open spec fn m_field(&self, name: Seq<char>) -> Option<Scalar> {
        None
    }

    open spec fn m_path(&self, path: Seq<Seq<char>>) -> Option<Scalar> {
        None
    }

    open spec fn m_type_label(&self) -> Seq<char> {
        "u32"@
    }

    open spec fn m_is_empty(&self) -> Option<bool> {
        None
    }

    open spec fn m_is_none(&self) -> bool {
        false
    }

    open spec fn m_eq(&self, other: &Self) -> bool {
        self == other
    }

    fn get_length(&self) -> (r: Option<usize>) {
        None
    }

    fn get_field<'a>(&'a self, name: &str) -> (r: Option<&'a Scalar>) {
        None
    }

    fn get_field_path<'a>(&'a self, path: &[String]) -> (r: Option<&'a Scalar>) {
        None
    }

    fn type_label(&self) -> (r: &str) {
        "u32"
    }

    fn is_empty(&self) -> (r: Option<bool>) {
        None
    }

    fn is_none(&self) -> (r: bool) {
        false
    }

    fn value_eq(&self, other: &Self) -> (r: bool) {
        *self == *other
    }
}

impl Matchable for u64 {
    open spec fn m_length(&self) -> Option<usize> {
        None
    }

    open spec fn m_field(&self, name: Seq<char>) -> Option<Scalar> {
        None
    }

    open spec fn m_path(&self, path: Seq<Seq<char>>) -> Option<Scalar> {
        None
    }

    open spec fn m_type_label(&self) -> Seq<char> {
        "u64"@
    }

    open spec fn m_is_empty(&self) -> Option<bool> {
        None
    }

    open spec fn m_is_none(&self) -> bool {
        false
    }

    open spec fn m_eq(&self, other: &Self) -> bool {
        self == other
    }

    fn get_length(&self) -> (r: Option<usize>) {
        None
    }

    fn get_field<'a>(&'a self, name: &str) -> (r: Option<&'a Scalar>) {
        None
    }

    fn get_field_path<'a>(&'a self, path: &[String]) -> (r: Option<&'a Scalar>) {
        None
    }

    fn type_label(&self) -> (r: &str) {
        "u64"
    }

    fn is_empty(&self) -> (r: Option<bool>) {
        None
    }

    fn is_none(&self) -> (r: bool) {
        false
    }

    fn value_eq(&self, other: &Self) -> (r: bool) {
        *self == *other
    }
}

impl Matchable for u128 {
    open spec fn m_length(&self) -> Option<usize> {
        None
    }

    open spec fn m_field(&self, name: Seq<char>) -> Option<Scalar> {
        None
    }

    open spec fn m_path(&self, path: Seq<Seq<char>>) -> Option<Scalar> {
        None
    }

    open spec fn m_type_label(&self) -> Seq<char> {
        "u128"@
    }

    open spec fn m_is_empty(&self) -> Option<bool> {
        None
    }

    open spec fn m_is_none(&self) -> bool {
        false
    }

    open spec fn m_eq(&self, other: &Self) -> bool {
        self == other
    }

    fn get_length(&self) -> (r: Option<usize>) {
        None
    }

    fn get_field<'a>(&'a self, name: &str) -> (r: Option<&'a Scalar>) {
        None
    }

    fn get_field_path<'a>(&'a self, path: &[String]) -> (r: Option<&'a Scalar>) {
        None
    }

    fn type_label(&self) -> (r: &str) {
        "u128"
    }

    fn is_empty(&self) -> (r: Option<bool>) {
        None
    }

    fn is_none(&self) -> (r: bool) {
        false
    }

    fn value_eq(&self, other: &Self) -> (r: bool) {
        *self == *other
    }
}

impl Matchable for usize {
    open spec fn m_length(&self) -> Option<usize> {
        None
    }

    open spec fn m_field(&self, name: Seq<char>) -> Option<Scalar> {
        None
    }

    open spec fn m_path(&self, path: Seq<Seq<char>>) -> Option<Scalar> {
        None
    }

    open spec fn m_type_label(&self) -> Seq<char> {
        "usize"@
    }

    open spec fn m_is_empty(&self) -> Option<bool> {
        None
    }

    open spec fn m_is_none(&self) -> bool {
        false
    }

    open spec fn m_eq(&self, other: &Self) -> bool {
        self == other
    }

    fn get_length(&self) -> (r: Option<usize>) {
        None
    }

    fn get_field<'a>(&'a self, name: &str) -> (r: Option<&'a Scalar>) {
        None
    }

    fn get_field_path<'a>(&'a self, path: &[String]) -> (r: Option<&'a Scalar>) {
        None
    }

    fn type_label(&self) -> (r: &str) {
        "usize"
    }

    fn is_empty(&self) -> (r: Option<bool>) {
        None
    }

    fn is_none(&self) -> (r: bool) {
        false
    }

    fn value_eq(&self, other: &Self) -> (r: bool) {
        *self == *other
    }
}

impl Matchable for bool {
    open spec fn m_length(&self) -> Option<usize> {
        None
    }

    open spec fn m_field(&self, name: Seq<char>) -> Option<Scalar> {
        None
    }

    open spec fn m_path(&self, path: Seq<Seq<char>>) -> Option<Scalar> {
        None
    }

    open spec fn m_type_label(&self) -> Seq<char> {
        "bool"@
    }

    open spec fn m_is_empty(&self) -> Option<bool> {
        None
    }

    open spec fn m_is_none(&self) -> bool {
        false
    }

    open spec fn m_eq(&self, other: &Self) -> bool {
        self == other
    }

    fn get_length(&self) -> (r: Option<usize>) {
        None
    }

    fn get_field<'a>(&'a self, name: &str) -> (r: Option<&'a Scalar>) {
        None
    }

    fn get_field_path<'a>(&'a self, path: &[String]) -> (r: Option<&'a Scalar>) {
        None
    }

    fn type_label(&self) -> (r: &str) {
        "bool"
    }

    fn is_empty(&self) -> (r: Option<bool>) {
        None
    }

    fn is_none(&self) -> (r: bool) {
        false
    }

    fn value_eq(&self, other: &Self) -> (r: bool) {
        *self == *other
    }
}

impl Matchable for char {
    open spec fn m_length(&self) -> Option<usize> {
        None
    }

    open spec fn m_field(&self, name: Seq<char>) -> Option<Scalar> {
        None
    }

    open spec fn m_path(&self, path: Seq<Seq<char>>) -> Option<Scalar> {
        None
    }

    open spec fn m_type_label(&self) -> Seq<char> {
        "char"@
    }

    open spec fn m_is_empty(&self) -> Option<bool> {
        None
    }

    open spec fn m_is_none(&self) -> bool {
        false
    }

    open spec fn m_eq(&self, other: &Self) -> bool {
        self == other
    }

    fn get_length(&self) -> (r: Option<usize>) {
        None
    }

    fn get_field<'a>(&'a self, name: &str) -> (r: Option<&'a Scalar>) {
        None
    }

    fn get_field_path<'a>(&'a self, path: &[String]) -> (r: Option<&'a Scalar>) {
        None
    }

    fn type_label(&self) -> (r: &str) {
        "char"
    }

    fn is_empty(&self) -> (r: Option<bool>) {
        None
    }

    fn is_none(&self) -> (r: bool) {
        false
    }

    fn value_eq(&self, other: &Self) -> (r: bool) {
        *self == *other
    }
}

} // verus!
