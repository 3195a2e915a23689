//! Named, typed scratch buffers that belong to one running effect.

use vstd::prelude::*;
use crate::color::Color;
use crate::error::EffectError;
use crate::geometry::Point;

verus! {

/// The element type a buffer is created with.
#[derive(Clone, Copy, Debug, PartialEq, Eq, Structural)]
pub enum ElementType {
    Scalar,
    Point,
    Color,
}

/// One element read out of a buffer.
#[derive(Clone, Copy, Debug, PartialEq, Eq, Structural)]
pub enum Item {
    Scalar(i64),
    Point(Point),
    Color(Color),
}

/// A growable sequence of values of one element type.
#[derive(Debug)]
pub enum Buffer {
    Scalars(Vec<i64>),
    Points(Vec<Point>),
    Colors(Vec<Color>),
}

/// What a buffer holds.
pub enum BufferView {
    Scalars(Seq<i64>),
    Points(Seq<Point>),
    Colors(Seq<Color>),
}

impl BufferView {
    pub open spec fn kind(self) -> ElementType {
        match self {
            BufferView::Scalars(_) => ElementType::Scalar,
            BufferView::Points(_) => ElementType::Point,
            BufferView::Colors(_) => ElementType::Color,
        }
    }

    pub open spec fn len(self) -> nat {
        match self {
            BufferView::Scalars(s) => s.len(),
            BufferView::Points(s) => s.len(),
            BufferView::Colors(s) => s.len(),
        }
    }

    /// The element at `index`.
    pub open spec fn item(self, index: int) -> Item {
        match self {
            BufferView::Scalars(s) => Item::Scalar(s[index]),
            BufferView::Points(s) => Item::Point(s[index]),
            BufferView::Colors(s) => Item::Color(s[index]),
        }
    }

    /// A buffer of the given type with nothing in it.
    pub open spec fn empty(kind: ElementType) -> BufferView {
        match kind {
            ElementType::Scalar => BufferView::Scalars(Seq::empty()),
            ElementType::Point => BufferView::Points(Seq::empty()),
            ElementType::Color => BufferView::Colors(Seq::empty()),
        }
    }
}

impl View for Buffer {
    type V = BufferView;

    open spec fn view(&self) -> BufferView {
        match self {
            Buffer::Scalars(v) => BufferView::Scalars(v@),
            Buffer::Points(v) => BufferView::Points(v@),
            Buffer::Colors(v) => BufferView::Colors(v@),
        }
    }
}

impl Buffer {
    /// An empty buffer of the given element type.
    pub fn new(kind: ElementType) -> (b: Buffer)
        ensures
            b@ == BufferView::empty(kind),
    {
        match kind {
            ElementType::Scalar => Buffer::Scalars(Vec::new()),
            ElementType::Point => Buffer::Points(Vec::new()),
            ElementType::Color => Buffer::Colors(Vec::new()),
        }
    }

    /// The element type the buffer was created with.
    pub fn kind(&self) -> (k: ElementType)
        ensures
            k == self@.kind(),
    {
        match self {
            Buffer::Scalars(_) => ElementType::Scalar,
            Buffer::Points(_) => ElementType::Point,
            Buffer::Colors(_) => ElementType::Color,
        }
    }

    /// The number of elements.
    pub fn len(&self) -> (n: usize)
        ensures
            n == self@.len(),
    {
        match self {
            Buffer::Scalars(v) => v.len(),
            Buffer::Points(v) => v.len(),
            Buffer::Colors(v) => v.len(),
        }
    }

    /// The element at `index`, if there is one.
    pub fn get(&self, index: usize) -> (r: Option<Item>)
        ensures
            r == (if index < self@.len() {
                Some(self@.item(index as int))
            } else {
                None
            }),
    {
        if index >= self.len() {
            return None;
        }
        match self {
            Buffer::Scalars(v) => Some(Item::Scalar(v[index])),
            Buffer::Points(v) => Some(Item::Point(v[index])),
            Buffer::Colors(v) => Some(Item::Color(v[index])),
        }
    }
}

/// A buffer under its name.
struct Entry {
    name: String,
    data: Buffer,
}

/// Whether some entry carries the name `n`.
spec fn named(entries: Seq<Entry>, n: Seq<char>) -> bool {
    exists|i: int| 0 <= i < entries.len() && (#[trigger] entries[i]).name@ == n
}

/// The place of the entry named `n`.
spec fn slot(entries: Seq<Entry>, n: Seq<char>) -> int {
    choose|i: int| 0 <= i < entries.len() && (#[trigger] entries[i]).name@ == n
}

/// No two entries share a name.
spec fn distinct(entries: Seq<Entry>) -> bool {
    forall|i: int, j: int|
        0 <= i < j < entries.len() ==> (#[trigger] entries[i]).name@ != (#[trigger] entries[j]).name@
}

/// The mapping from names to contents that a list of entries stands for.
spec fn model(entries: Seq<Entry>) -> Map<Seq<char>, BufferView> {
    Map::new(|n: Seq<char>| named(entries, n), |n: Seq<char>| entries[slot(entries, n)].data@)
}

proof fn lemma_at(entries: Seq<Entry>, i: int)
    requires
        distinct(entries),
        0 <= i < entries.len(),
    ensures
        model(entries).contains_key(entries[i].name@),
        model(entries)[entries[i].name@] == entries[i].data@,
{
    let n = entries[i].name@;
    assert(named(entries, n));
    let k = slot(entries, n);
    assert(0 <= k < entries.len() && entries[k].name@ == n);
    assert(k == i);
}

proof fn lemma_push(entries: Seq<Entry>, e: Entry)
    requires
        distinct(entries),
        !named(entries, e.name@),
    ensures
        distinct(entries.push(e)),
        model(entries.push(e)) =~= model(entries).insert(e.name@, e.data@),
{
    let after = entries.push(e);
    assert forall|i: int, j: int| 0 <= i < j < after.len() implies (#[trigger] after[i]).name@ != (
    #[trigger] after[j]).name@ by {
        if j == entries.len() {
            assert(entries[i].name@ != e.name@);
        } else {
            assert(after[i] == entries[i]);
            assert(after[j] == entries[j]);
        }
    }
    assert forall|n: Seq<char>| model(after).contains_key(n) <==> model(entries).insert(
        e.name@,
        e.data@,
    ).contains_key(n) by {
        if named(entries, n) {
            let k = slot(entries, n);
            assert(after[k].name@ == n);
        }
        if named(after, n) {
            let k = slot(after, n);
            if k < entries.len() {
                assert(entries[k].name@ == n);
            }
        }
        assert(after[entries.len() as int].name@ == e.name@);
    }
    assert forall|n: Seq<char>| model(after).contains_key(n) implies #[trigger] model(after)[n]
        == model(entries).insert(e.name@, e.data@)[n] by {
        let k = slot(after, n);
        lemma_at(after, k);
        if k < entries.len() {
            assert(entries[k] == after[k]);
            lemma_at(entries, k);
        }
    }
}

proof fn lemma_update(entries: Seq<Entry>, i: int, e: Entry)
    requires
        distinct(entries),
        0 <= i < entries.len(),
        e.name@ == entries[i].name@,
    ensures
        distinct(entries.update(i, e)),
        model(entries.update(i, e)) =~= model(entries).insert(e.name@, e.data@),
{
    let after = entries.update(i, e);
    assert forall|a: int, b: int| 0 <= a < b < after.len() implies (#[trigger] after[a]).name@ != (
    #[trigger] after[b]).name@ by {
        assert(after[a].name@ == entries[a].name@);
        assert(after[b].name@ == entries[b].name@);
    }
    assert forall|n: Seq<char>| model(after).contains_key(n) <==> model(entries).insert(
        e.name@,
        e.data@,
    ).contains_key(n) by {
        if named(entries, n) {
            let k = slot(entries, n);
            assert(after[k].name@ == n);
        }
        if named(after, n) {
            let k = slot(after, n);
            assert(entries[k].name@ == n);
        }
        assert(after[i].name@ == e.name@);
    }
    assert forall|n: Seq<char>| model(after).contains_key(n) implies #[trigger] model(after)[n]
        == model(entries).insert(e.name@, e.data@)[n] by {
        let k = slot(after, n);
        lemma_at(after, k);
        if k != i {
            assert(entries[k] == after[k]);
            lemma_at(entries, k);
        }
    }
}

/// The scratch memory of one effect: buffers by name, each of one element type.
pub struct BufferStore {
    entries: Vec<Entry>,
}

impl View for BufferStore {
    type V = Map<Seq<char>, BufferView>;

    closed spec fn view(&self) -> Map<Seq<char>, BufferView> {
        model(self.entries@)
    }
}

impl BufferStore {
    /// Every name occurs once.
    pub closed spec fn wf(&self) -> bool {
        distinct(self.entries@)
    }

    /// The number of buffers.
    pub closed spec fn count(&self) -> nat {
        self.entries@.len()
    }

    /// A store without buffers.
    pub fn new() -> (s: BufferStore)
        ensures
            s.wf(),
            s@ == Map::<Seq<char>, BufferView>::empty(),
            s.count() == 0,
    {
        let s = BufferStore { entries: Vec::new() };
        assert(s@ =~= Map::<Seq<char>, BufferView>::empty());
        s
    }

    fn find(&self, name: &str) -> (r: Option<usize>)
        requires
            self.wf(),
        ensures
            match r {
                Some(i) => i < self.entries.len() && self.entries[i as int].name@ == name@
                    && self@.contains_key(name@) && self@[name@] == self.entries[i as int].data@,
                None => !named(self.entries@, name@) && !self@.contains_key(name@),
            },
    {
        let key: String = name.to_owned();
        let mut i: usize = 0;
        while i < self.entries.len()
            invariant
                i <= self.entries.len(),
                key@ == name@,
                self.wf(),
                forall|j: int| 0 <= j < i ==> (#[trigger] self.entries@[j]).name@ != name@,
            decreases self.entries.len() - i,
        {
            if self.entries[i].name == key {
                proof {
                    lemma_at(self.entries@, i as int);
                }
                return Some(i);
            }
            i += 1;
        }
        None
    }

    /// Whether a buffer of that name exists.
    pub fn contains(&self, name: &str) -> (b: bool)
        requires
            self.wf(),
        ensures
            b == self@.contains_key(name@),
    {
        self.find(name).is_some()
    }

    /// How many buffers the store holds.
    pub fn len(&self) -> (n: usize)
        ensures
            n == self.count(),
    {
        self.entries.len()
    }

    /// What creating `name` with element type `kind` returns on a store that
    /// holds `m`, and what the store holds afterwards.
    pub open spec fn created(m: Map<Seq<char>, BufferView>, name: Seq<char>, kind: ElementType) -> (
        Result<(), EffectError>,
        Map<Seq<char>, BufferView>,
    ) {
        if m.contains_key(name) {
            (Err(EffectError::DuplicateBuffer), m)
        } else {
            (Ok(()), m.insert(name, BufferView::empty(kind)))
        }
    }

    /// Creates an empty buffer of the given element type under `name`. A name
    /// can be created once: a second creation is refused and changes nothing.
    pub fn create_buffer(&mut self, name: &str, kind: ElementType) -> (r: Result<(), EffectError>)
        requires
            old(self).wf(),
        ensures
            final(self).wf(),
            (r, final(self)@) == Self::created(old(self)@, name@, kind),
            final(self).count() == old(self).count() + (if r is Ok {
                1nat
            } else {
                0nat
            }),
    {
        match self.find(name) {
            Some(_) => Err(EffectError::DuplicateBuffer),
            None => {
                let entry = Entry { name: name.to_owned(), data: Buffer::new(kind) };
                proof {
                    lemma_push(self.entries@, entry);
                }
                self.entries.push(entry);
                Ok(())
            },
        }
    }

    /// The outcome of looking up `name` with element type `kind` in `m`.
    pub open spec fn lookup(m: Map<Seq<char>, BufferView>, name: Seq<char>, kind: ElementType)
        -> Result<BufferView, EffectError> {
        if !m.contains_key(name) {
            Err(EffectError::MissingBuffer)
        } else if m[name].kind() != kind {
            Err(EffectError::TypeMismatch)
        } else {
            Ok(m[name])
        }
    }

    /// The outcome of reading element `index` of the buffer `name` in `m`.
    pub open spec fn lookup_item(
        m: Map<Seq<char>, BufferView>,
        name: Seq<char>,
        kind: ElementType,
        index: nat,
    ) -> Result<Item, EffectError> {
        match Self::lookup(m, name, kind) {
            Err(e) => Err(e),
            Ok(b) => if index < b.len() {
                Ok(b.item(index as int))
            } else {
                Err(EffectError::IndexOutOfRange)
            },
        }
    }

    /// The buffer under `name`, which must have been created with element
    /// type `kind`.
    pub fn get_buffer(&self, name: &str, kind: ElementType) -> (r: Result<&Buffer, EffectError>)
        requires
            self.wf(),
        ensures
            match r {
                Ok(b) => Self::lookup(self@, name@, kind) == Ok::<BufferView, EffectError>(b@),
                Err(e) => Self::lookup(self@, name@, kind) == Err::<BufferView, EffectError>(e),
            },
    {
        match self.find(name) {
            None => Err(EffectError::MissingBuffer),
            Some(i) => {
                let b: &Buffer = &self.entries[i].data;
                if b.kind() == kind {
                    Ok(b)
                } else {
                    Err(EffectError::TypeMismatch)
                }
            },
        }
    }

    /// Element `index` of the buffer under `name`.
    pub fn get_buffer_item(&self, name: &str, kind: ElementType, index: usize) -> (r: Result<
        Item,
        EffectError,
    >)
        requires
            self.wf(),
        ensures
            r == Self::lookup_item(self@, name@, kind, index as nat),
    {
        match self.get_buffer(name, kind) {
            Err(e) => Err(e),
            Ok(b) => match b.get(index) {
                Some(item) => Ok(item),
                None => Err(EffectError::IndexOutOfRange),
            },
        }
    }

    /// Mutable access to the points buffer under `name`. What the caller
    /// leaves in the vector is what the store holds afterwards; nothing else
    /// changes.
    pub fn get_points_mut(&mut self, name: &str) -> (r: Result<&mut Vec<Point>, EffectError>)
        requires
            old(self).wf(),
        ensures
            match r {
                Ok(v) => Self::lookup(old(self)@, name@, ElementType::Point) == Ok::<
                    BufferView,
                    EffectError,
                >(BufferView::Points(v@)) && final(self).wf() && final(self).count() == old(self).count() && final(self)@ == old(self)@.insert(
                    name@,
                    BufferView::Points(final(v)@),
                ),
                Err(e) => Self::lookup(old(self)@, name@, ElementType::Point) == Err::<
                    BufferView,
                    EffectError,
                >(e) && final(self).wf() && final(self)@ == old(self)@ && final(self).count()
                    == old(self).count(),
            },
    {
        match self.find(name) {
            None => Err(EffectError::MissingBuffer),
            Some(i) => {
                if self.entries[i].data.kind() != ElementType::Point {
                    return Err(EffectError::TypeMismatch);
                }
                let ghost before = self.entries@;
                match &mut self.entries[i].data {
                    Buffer::Points(v) => {
                        proof {
                            let e = Entry { name: before[i as int].name, data: Buffer::Points(*final(v)) };
                            lemma_update(before, i as int, e);
                        }
                        Ok(v)
                    },
                    _ => Err(EffectError::TypeMismatch),
                }
            },
        }
    }

    /// Mutable access to the scalars buffer under `name`. What the caller
    /// leaves in the vector is what the store holds afterwards; nothing else
    /// changes.
    pub fn get_scalars_mut(&mut self, name: &str) -> (r: Result<&mut Vec<i64>, EffectError>)
        requires
            old(self).wf(),
        ensures
            match r {
                Ok(v) => Self::lookup(old(self)@, name@, ElementType::Scalar) == Ok::<
                    BufferView,
                    EffectError,
                >(BufferView::Scalars(v@)) && final(self).wf() && final(self).count() == old(self).count() && final(self)@ == old(self)@.insert(
                    name@,
                    BufferView::Scalars(final(v)@),
                ),
                Err(e) => Self::lookup(old(self)@, name@, ElementType::Scalar) == Err::<
                    BufferView,
                    EffectError,
                >(e) && final(self).wf() && final(self)@ == old(self)@ && final(self).count()
                    == old(self).count(),
            },
    {
        match self.find(name) {
            None => Err(EffectError::MissingBuffer),
            Some(i) => {
                if self.entries[i].data.kind() != ElementType::Scalar {
                    return Err(EffectError::TypeMismatch);
                }
                let ghost before = self.entries@;
                match &mut self.entries[i].data {
                    Buffer::Scalars(v) => {
                        proof {
                            let e = Entry { name: before[i as int].name, data: Buffer::Scalars(*final(v)) };
                            lemma_update(before, i as int, e);
                        }
                        Ok(v)
                    },
                    _ => Err(EffectError::TypeMismatch),
                }
            },
        }
    }

    /// Mutable access to the colors buffer under `name`. What the caller
    /// leaves in the vector is what the store holds afterwards; nothing else
    /// changes.
    pub fn get_colors_mut(&mut self, name: &str) -> (r: Result<&mut Vec<Color>, EffectError>)
        requires
            old(self).wf(),
        ensures
            match r {
                Ok(v) => Self::lookup(old(self)@, name@, ElementType::Color) == Ok::<
                    BufferView,
                    EffectError,
                >(BufferView::Colors(v@)) && final(self).wf() && final(self).count() == old(self).count() && final(self)@ == old(self)@.insert(
                    name@,
                    BufferView::Colors(final(v)@),
                ),
                Err(e) => Self::lookup(old(self)@, name@, ElementType::Color) == Err::<
                    BufferView,
                    EffectError,
                >(e) && final(self).wf() && final(self)@ == old(self)@ && final(self).count()
                    == old(self).count(),
            },
    {
        match self.find(name) {
            None => Err(EffectError::MissingBuffer),
            Some(i) => {
                if self.entries[i].data.kind() != ElementType::Color {
                    return Err(EffectError::TypeMismatch);
                }
                let ghost before = self.entries@;
                match &mut self.entries[i].data {
                    Buffer::Colors(v) => {
                        proof {
                            let e = Entry { name: before[i as int].name, data: Buffer::Colors(*final(v)) };
                            lemma_update(before, i as int, e);
                        }
                        Ok(v)
                    },
                    _ => Err(EffectError::TypeMismatch),
                }
            },
        }
    }

    /// Removes every buffer.
    pub fn clear(&mut self)
        ensures
            final(self).wf(),
            final(self)@ == Map::<Seq<char>, BufferView>::empty(),
            final(self).count() == 0,
    {
        self.entries = Vec::new();
        assert(self@ =~= Map::<Seq<char>, BufferView>::empty());
    }
}

/// A name is created at most once: whatever a store held, after one creation
/// of `name` a second one is refused as a duplicate, with any element type,
/// and leaves the store as the first left it.
pub proof fn law_second_creation_is_refused(
    m: Map<Seq<char>, BufferView>,
    name: Seq<char>,
    first: ElementType,
    second: ElementType,
)
    ensures
        BufferStore::created(BufferStore::created(m, name, first).1, name, second) == (
            Err::<(), EffectError>(EffectError::DuplicateBuffer),
            BufferStore::created(m, name, first).1,
        ),
{
}

/// A buffer keeps the element type it was created with: a lookup of a freshly
/// created buffer succeeds with that type, finds it empty, and is refused as a
/// type mismatch with any other type.
pub proof fn law_lookup_checks_the_type(
    m: Map<Seq<char>, BufferView>,
    name: Seq<char>,
    made: ElementType,
    asked: ElementType,
)
    requires
        !m.contains_key(name),
    ensures
        asked == made ==> BufferStore::lookup(BufferStore::created(m, name, made).1, name, asked)
            == Ok::<BufferView, EffectError>(BufferView::empty(made)),
        asked != made ==> BufferStore::lookup(BufferStore::created(m, name, made).1, name, asked)
            == Err::<BufferView, EffectError>(EffectError::TypeMismatch),
{
}

/// A name that was never created is missing, whatever type is asked for.
pub proof fn law_unknown_name_is_missing(name: Seq<char>, asked: ElementType, index: nat)
    ensures
        BufferStore::lookup(Map::empty(), name, asked) == Err::<BufferView, EffectError>(
            EffectError::MissingBuffer,
        ),
        BufferStore::lookup_item(Map::empty(), name, asked, index) == Err::<Item, EffectError>(
            EffectError::MissingBuffer,
        ),
{
}

} // verus!
