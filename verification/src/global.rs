//! The way from a value that may hold call-scoped references to one that
//! holds independent references only.
//!
//! The managed runtime hands out the handles of independent references.
//! So a value is promoted in two steps: it says which objects its
//! call-scoped references point to, and it is then made independent with
//! the handles that the runtime handed out for them, one for each, in the
//! same order.

use crate::error::Error;
use crate::jvm::{Global, JavaObjectExt, Jvm, JvmOp, Local};
use crate::raw::ObjectPtr;
use vstd::prelude::*;

verus! {

/// A value that can be made independent of the entry into the managed
/// runtime that produced it. Every call-scoped reference in it is promoted;
/// everything else stays as it is.
pub trait IntoGlobal<'jvm>: Sized {
    /// The type of the independent value.
    type Output;

    /// The objects that the references in this value which have to be
    /// promoted point to, in the order in which they are promoted.
    spec fn scoped(&self) -> Seq<ObjectPtr>;

    /// Appends those objects to `out`, so that the managed runtime can be
    /// asked for an independent reference to each.
    fn push_scoped(&self, out: &mut Vec<ObjectPtr>)
        ensures
            final(out)@ == old(out)@ + self.scoped(),
    ;

    /// Whether `out` is this value made independent, with the handles
    /// `promoted`, in order, for the references that had to be promoted.
    spec fn promotes_to(&self, promoted: Seq<ObjectPtr>, out: &Self::Output) -> bool;

    /// This value made independent with the handles that `promoted` holds
    /// from position `from` on, and the position after the last handle
    /// that was used. The entry is needed and left as it was.
    fn into_global(self, jvm: &mut Jvm<'jvm>, promoted: &Vec<ObjectPtr>, from: usize) -> (out: (
        Self::Output,
        usize,
    ))
        requires
            from + self.scoped().len() <= promoted@.len(),
        ensures
            out.1 == from + self.scoped().len(),
            self.promotes_to(promoted@.subrange(from as int, out.1 as int), &out.0),
            *final(jvm) == *old(jvm),
    ;
}

impl<'jvm, T> IntoGlobal<'jvm> for Local<'jvm, T> {
    type Output = Global<T>;

    open spec fn scoped(&self) -> Seq<ObjectPtr> {
        seq![self.object()]
    }

    fn push_scoped(&self, out: &mut Vec<ObjectPtr>) {
        out.push(self.as_raw());
        assert(out@ =~= old(out)@ + self.scoped());
    }

    /// The independent reference has the handle that was handed out.
    open spec fn promotes_to(&self, promoted: Seq<ObjectPtr>, out: &Global<T>) -> bool {
        promoted.len() == 1 && out.object() == promoted[0]
    }

    fn into_global(self, jvm: &mut Jvm<'jvm>, promoted: &Vec<ObjectPtr>, from: usize) -> (out: (
        Global<T>,
        usize,
    )) {
        assert(self.scoped().len() == 1);
        let handles = promoted.len();
        (jvm.global(&self, promoted[from]), from + 1)
    }
}

impl<'a, 'jvm, R: JavaObjectExt> IntoGlobal<'jvm> for &'a R {
    type Output = Global<R::Object>;

    open spec fn scoped(&self) -> Seq<ObjectPtr> {
        seq![self.referent()]
    }

    fn push_scoped(&self, out: &mut Vec<ObjectPtr>) {
        out.push(self.as_raw());
        assert(out@ =~= old(out)@ + self.scoped());
    }

    /// The independent reference has the handle that was handed out.
    open spec fn promotes_to(&self, promoted: Seq<ObjectPtr>, out: &Global<R::Object>) -> bool {
        promoted.len() == 1 && out.object() == promoted[0]
    }

    fn into_global(self, jvm: &mut Jvm<'jvm>, promoted: &Vec<ObjectPtr>, from: usize) -> (out: (
        Global<R::Object>,
        usize,
    )) {
        assert(self.scoped().len() == 1);
        let handles = promoted.len();
        (jvm.global(self, promoted[from]), from + 1)
    }
}

impl<'jvm, T> IntoGlobal<'jvm> for Global<T> {
    type Output = Global<T>;

    open spec fn scoped(&self) -> Seq<ObjectPtr> {
        Seq::empty()
    }

    fn push_scoped(&self, out: &mut Vec<ObjectPtr>) {
        assert(out@ =~= old(out)@ + self.scoped());
    }

    /// An independent reference stays the reference that it is.
    open spec fn promotes_to(&self, promoted: Seq<ObjectPtr>, out: &Global<T>) -> bool {
        promoted.len() == 0 && *out == *self
    }

    fn into_global(self, jvm: &mut Jvm<'jvm>, promoted: &Vec<ObjectPtr>, from: usize) -> (out: (
        Global<T>,
        usize,
    )) {
        (self, from)
    }
}

impl<'jvm> IntoGlobal<'jvm> for String {
    type Output = String;

    open spec fn scoped(&self) -> Seq<ObjectPtr> {
        Seq::empty()
    }

    fn push_scoped(&self, out: &mut Vec<ObjectPtr>) {
        assert(out@ =~= old(out)@ + self.scoped());
    }

    open spec fn promotes_to(&self, promoted: Seq<ObjectPtr>, out: &String) -> bool {
        promoted.len() == 0 && *out == *self
    }

    fn into_global(self, jvm: &mut Jvm<'jvm>, promoted: &Vec<ObjectPtr>, from: usize) -> (out: (
        String,
        usize,
    )) {
        (self, from)
    }
}

impl<'jvm> IntoGlobal<'jvm> for () {
    type Output = ();

    open spec fn scoped(&self) -> Seq<ObjectPtr> {
        Seq::empty()
    }

    fn push_scoped(&self, out: &mut Vec<ObjectPtr>) {
        assert(out@ =~= old(out)@ + self.scoped());
    }

    open spec fn promotes_to(&self, promoted: Seq<ObjectPtr>, out: &()) -> bool {
        promoted.len() == 0 && *out == *self
    }

    fn into_global(self, jvm: &mut Jvm<'jvm>, promoted: &Vec<ObjectPtr>, from: usize) -> (out: (
        (),
        usize,
    )) {
        (self, from)
    }
}

impl<'jvm> IntoGlobal<'jvm> for bool {
    type Output = bool;

    open spec fn scoped(&self) -> Seq<ObjectPtr> {
        Seq::empty()
    }

    fn push_scoped(&self, out: &mut Vec<ObjectPtr>) {
        assert(out@ =~= old(out)@ + self.scoped());
    }

    open spec fn promotes_to(&self, promoted: Seq<ObjectPtr>, out: &bool) -> bool {
        promoted.len() == 0 && *out == *self
    }

    fn into_global(self, jvm: &mut Jvm<'jvm>, promoted: &Vec<ObjectPtr>, from: usize) -> (out: (
        bool,
        usize,
    )) {
        (self, from)
    }
}

impl<'jvm> IntoGlobal<'jvm> for i8 {
    type Output = i8;

    open spec fn scoped(&self) -> Seq<ObjectPtr> {
        Seq::empty()
    }

    fn push_scoped(&self, out: &mut Vec<ObjectPtr>) {
        assert(out@ =~= old(out)@ + self.scoped());
    }

    open spec fn promotes_to(&self, promoted: Seq<ObjectPtr>, out: &i8) -> bool {
        promoted.len() == 0 && *out == *self
    }

    fn into_global(self, jvm: &mut Jvm<'jvm>, promoted: &Vec<ObjectPtr>, from: usize) -> (out: (
        i8,
        usize,
    )) {
        (self, from)
    }
}

impl<'jvm> IntoGlobal<'jvm> for u8 {
    type Output = u8;

    open spec fn scoped(&self) -> Seq<ObjectPtr> {
        Seq::empty()
    }

    fn push_scoped(&self, out: &mut Vec<ObjectPtr>) {
        assert(out@ =~= old(out)@ + self.scoped());
    }

    open spec fn promotes_to(&self, promoted: Seq<ObjectPtr>, out: &u8) -> bool {
        promoted.len() == 0 && *out == *self
    }

    fn into_global(self, jvm: &mut Jvm<'jvm>, promoted: &Vec<ObjectPtr>, from: usize) -> (out: (
        u8,
        usize,
    )) {
        (self, from)
    }
}

impl<'jvm> IntoGlobal<'jvm> for i16 {
    type Output = i16;

    open spec fn scoped(&self) -> Seq<ObjectPtr> {
        Seq::empty()
    }

    fn push_scoped(&self, out: &mut Vec<ObjectPtr>) {
        assert(out@ =~= old(out)@ + self.scoped());
    }

    open spec fn promotes_to(&self, promoted: Seq<ObjectPtr>, out: &i16) -> bool {
        promoted.len() == 0 && *out == *self
    }

    fn into_global(self, jvm: &mut Jvm<'jvm>, promoted: &Vec<ObjectPtr>, from: usize) -> (out: (
        i16,
        usize,
    )) {
        (self, from)
    }
}

impl<'jvm> IntoGlobal<'jvm> for u16 {
    type Output = u16;

    open spec fn scoped(&self) -> Seq<ObjectPtr> {
        Seq::empty()
    }

    fn push_scoped(&self, out: &mut Vec<ObjectPtr>) {
        assert(out@ =~= old(out)@ + self.scoped());
    }

    open spec fn promotes_to(&self, promoted: Seq<ObjectPtr>, out: &u16) -> bool {
        promoted.len() == 0 && *out == *self
    }

    fn into_global(self, jvm: &mut Jvm<'jvm>, promoted: &Vec<ObjectPtr>, from: usize) -> (out: (
        u16,
        usize,
    )) {
        (self, from)
    }
}

impl<'jvm> IntoGlobal<'jvm> for i32 {
    type Output = i32;

    open spec fn scoped(&self) -> Seq<ObjectPtr> {
        Seq::empty()
    }

    fn push_scoped(&self, out: &mut Vec<ObjectPtr>) {
        assert(out@ =~= old(out)@ + self.scoped());
    }

    open spec fn promotes_to(&self, promoted: Seq<ObjectPtr>, out: &i32) -> bool {
        promoted.len() == 0 && *out == *self
    }

    fn into_global(self, jvm: &mut Jvm<'jvm>, promoted: &Vec<ObjectPtr>, from: usize) -> (out: (
        i32,
        usize,
    )) {
        (self, from)
    }
}

impl<'jvm> IntoGlobal<'jvm> for u32 {
    type Output = u32;

    open spec fn scoped(&self) -> Seq<ObjectPtr> {
        Seq::empty()
    }

    fn push_scoped(&self, out: &mut Vec<ObjectPtr>) {
        assert(out@ =~= old(out)@ + self.scoped());
    }

    open spec fn promotes_to(&self, promoted: Seq<ObjectPtr>, out: &u32) -> bool {
        promoted.len() == 0 && *out == *self
    }

    fn into_global(self, jvm: &mut Jvm<'jvm>, promoted: &Vec<ObjectPtr>, from: usize) -> (out: (
        u32,
        usize,
    )) {
        (self, from)
    }
}

impl<'jvm> IntoGlobal<'jvm> for i64 {
    type Output = i64;

    open spec fn scoped(&self) -> Seq<ObjectPtr> {
        Seq::empty()
    }

    fn push_scoped(&self, out: &mut Vec<ObjectPtr>) {
        assert(out@ =~= old(out)@ + self.scoped());
    }

    open spec fn promotes_to(&self, promoted: Seq<ObjectPtr>, out: &i64) -> bool {
        promoted.len() == 0 && *out == *self
    }

    fn into_global(self, jvm: &mut Jvm<'jvm>, promoted: &Vec<ObjectPtr>, from: usize) -> (out: (
        i64,
        usize,
    )) {
        (self, from)
    }
}

impl<'jvm> IntoGlobal<'jvm> for u64 {
    type Output = u64;

    open spec fn scoped(&self) -> Seq<ObjectPtr> {
        Seq::empty()
    }

    fn push_scoped(&self, out: &mut Vec<ObjectPtr>) {
        assert(out@ =~= old(out)@ + self.scoped());
    }

    open spec fn promotes_to(&self, promoted: Seq<ObjectPtr>, out: &u64) -> bool {
        promoted.len() == 0 && *out == *self
    }

    fn into_global(self, jvm: &mut Jvm<'jvm>, promoted: &Vec<ObjectPtr>, from: usize) -> (out: (
        u64,
        usize,
    )) {
        (self, from)
    }
}

impl<'jvm> IntoGlobal<'jvm> for i128 {
    type Output = i128;

    open spec fn scoped(&self) -> Seq<ObjectPtr> {
        Seq::empty()
    }

    fn push_scoped(&self, out: &mut Vec<ObjectPtr>) {
        assert(out@ =~= old(out)@ + self.scoped());
    }

    open spec fn promotes_to(&self, promoted: Seq<ObjectPtr>, out: &i128) -> bool {
        promoted.len() == 0 && *out == *self
    }

    fn into_global(self, jvm: &mut Jvm<'jvm>, promoted: &Vec<ObjectPtr>, from: usize) -> (out: (
        i128,
        usize,
    )) {
        (self, from)
    }
}

impl<'jvm> IntoGlobal<'jvm> for u128 {
    type Output = u128;

    open spec fn scoped(&self) -> Seq<ObjectPtr> {
        Seq::empty()
    }

    fn push_scoped(&self, out: &mut Vec<ObjectPtr>) {
        assert(out@ =~= old(out)@ + self.scoped());
    }

    open spec fn promotes_to(&self, promoted: Seq<ObjectPtr>, out: &u128) -> bool {
        promoted.len() == 0 && *out == *self
    }

    fn into_global(self, jvm: &mut Jvm<'jvm>, promoted: &Vec<ObjectPtr>, from: usize) -> (out: (
        u128,
        usize,
    )) {
        (self, from)
    }
}

impl<'jvm, T: IntoGlobal<'jvm>> IntoGlobal<'jvm> for Option<T> {
    type Output = Option<T::Output>;

    open spec fn scoped(&self) -> Seq<ObjectPtr> {
        match *self {
            Some(v) => v.scoped(),
            None => Seq::empty(),
        }
    }

    fn push_scoped(&self, out: &mut Vec<ObjectPtr>) {
        match self {
            Some(v) => v.push_scoped(out),
            None => {
                assert(out@ =~= old(out)@ + self.scoped());
            },
        }
    }

    /// Nothing stays nothing; something is made independent.
    open spec fn promotes_to(&self, promoted: Seq<ObjectPtr>, out: &Option<T::Output>) -> bool {
        match (*self, *out) {
            (None, None) => promoted.len() == 0,
            (Some(v), Some(o)) => v.promotes_to(promoted, &o),
            _ => false,
        }
    }

    fn into_global(self, jvm: &mut Jvm<'jvm>, promoted: &Vec<ObjectPtr>, from: usize) -> (out: (
        Option<T::Output>,
        usize,
    )) {
        match self {
            None => (None, from),
            Some(p) => {
                let (o, next) = p.into_global(jvm, promoted, from);
                (Some(o), next)
            },
        }
    }
}

impl<'jvm, O: IntoGlobal<'jvm>, E: IntoGlobal<'jvm>> IntoGlobal<'jvm> for Result<O, E> {
    type Output = Result<O::Output, E::Output>;

    open spec fn scoped(&self) -> Seq<ObjectPtr> {
        match *self {
            Ok(v) => v.scoped(),
            Err(e) => e.scoped(),
        }
    }

    fn push_scoped(&self, out: &mut Vec<ObjectPtr>) {
        match self {
            Ok(v) => v.push_scoped(out),
            Err(e) => e.push_scoped(out),
        }
    }

    /// Success stays success and failure stays failure; what either holds
    /// is made independent.
    open spec fn promotes_to(
        &self,
        promoted: Seq<ObjectPtr>,
        out: &Result<O::Output, E::Output>,
    ) -> bool {
        match (*self, *out) {
            (Ok(v), Ok(o)) => v.promotes_to(promoted, &o),
            (Err(v), Err(o)) => v.promotes_to(promoted, &o),
            _ => false,
        }
    }

    fn into_global(self, jvm: &mut Jvm<'jvm>, promoted: &Vec<ObjectPtr>, from: usize) -> (out: (
        Result<O::Output, E::Output>,
        usize,
    )) {
        match self {
            Ok(v) => {
                let (o, next) = v.into_global(jvm, promoted, from);
                (Ok(o), next)
            },
            Err(e) => {
                let (o, next) = e.into_global(jvm, promoted, from);
                (Err(o), next)
            },
        }
    }
}

/// The objects that have to be promoted in the items, item by item.
pub open spec fn items_scoped<'jvm, T: IntoGlobal<'jvm>>(items: Seq<T>) -> Seq<ObjectPtr>
    decreases items.len(),
{
    if items.len() == 0 {
        Seq::empty()
    } else {
        items_scoped(items.drop_last()) + items.last().scoped()
    }
}

/// How many objects have to be promoted in the first `i` items.
#[verifier::opaque]
pub open spec fn scoped_before<'jvm, T: IntoGlobal<'jvm>>(items: Seq<T>, i: int) -> int {
    items_scoped(items.take(i)).len() as int
}

/// The objects of the first items are among those of all items, and each
/// item adds its own.
pub proof fn lemma_scoped_before<'jvm, T: IntoGlobal<'jvm>>(items: Seq<T>, i: int)
    requires
        0 <= i < items.len(),
    ensures
        scoped_before(items, i + 1) == scoped_before(items, i) + items[i].scoped().len(),
        0 <= scoped_before(items, i),
        scoped_before(items, i + 1) <= items_scoped(items).len(),
    decreases items.len() - i,
{
    reveal(scoped_before);
    assert(items.take(i + 1).drop_last() =~= items.take(i));
    assert(items.take(i + 1).last() == items[i]);
    if i + 1 == items.len() {
        assert(items.take(i + 1) =~= items);
    } else {
        lemma_scoped_before(items, i + 1);
    }
}

/// A part of a part of a sequence is a part of the sequence.
pub proof fn lemma_part_of_part(s: Seq<ObjectPtr>, a: int, b: int, c: int, d: int)
    requires
        0 <= a <= b <= s.len(),
        0 <= c <= d <= b - a,
    ensures
        s.subrange(a, b).subrange(c, d) == s.subrange(a + c, a + d),
{
    assert(s.subrange(a, b).subrange(c, d) =~= s.subrange(a + c, a + d));
}

impl<'jvm, T: IntoGlobal<'jvm>> IntoGlobal<'jvm> for Vec<T> {
    type Output = Vec<T::Output>;

    open spec fn scoped(&self) -> Seq<ObjectPtr> {
        items_scoped(self@)
    }

    fn push_scoped(&self, out: &mut Vec<ObjectPtr>) {
        let n = self.len();
        let mut i: usize = 0;
        assert(self@.take(0) =~= Seq::<T>::empty());
        assert(out@ =~= old(out)@ + items_scoped(self@.take(0)));
        while i < n
            invariant
                n == self@.len(),
                i <= n,
                out@ == old(out)@ + items_scoped(self@.take(i as int)),
            decreases n - i,
        {
            let ghost before = out@;
            self[i].push_scoped(out);
            proof {
                assert(self@.take(i + 1).drop_last() =~= self@.take(i as int));
                assert(self@.take(i + 1).last() == self@[i as int]);
                assert(out@ =~= old(out)@ + items_scoped(self@.take(i + 1)));
            }
            i += 1;
        }
        assert(self@.take(n as int) =~= self@);
    }

    /// The items are made independent one by one, in order, each with the
    /// handles for its own references.
    open spec fn promotes_to(&self, promoted: Seq<ObjectPtr>, out: &Vec<T::Output>) -> bool {
        &&& out@.len() == self@.len()
        &&& promoted.len() == items_scoped(self@).len()
        &&& forall|i: int|
            0 <= i < self@.len() ==> (#[trigger] self@[i]).promotes_to(
                promoted.subrange(scoped_before(self@, i), scoped_before(self@, i + 1)),
                &out@[i],
            )
    }

    fn into_global(self, jvm: &mut Jvm<'jvm>, promoted: &Vec<ObjectPtr>, from: usize) -> (out: (
        Vec<T::Output>,
        usize,
    )) {
        let ghost items = self@;
        let ghost entry = *jvm;
        let ghost total = items_scoped(items).len() as int;
        let ghost part = promoted@.subrange(from as int, from + total);
        let mut out: Vec<T::Output> = Vec::new();
        let mut next: usize = from;
        proof {
            reveal(scoped_before);
            assert(items.take(0) =~= Seq::<T>::empty());
            assert(scoped_before(items, 0) == 0);
        }
        for item in it: self
            invariant
                it.seq() == items,
                total == items_scoped(items).len(),
                from + total <= promoted@.len(),
                part == promoted@.subrange(from as int, from + total),
                out@.len() == it.index(),
                next == from + scoped_before(items, it.index() as int),
                forall|k: int|
                    0 <= k < out@.len() ==> (#[trigger] items[k]).promotes_to(
                        part.subrange(scoped_before(items, k), scoped_before(items, k + 1)),
                        &out@[k],
                    ),
                *jvm == entry,
        {
            let ghost i = it.index() as int;
            let ghost done = out@;
            proof {
                lemma_scoped_before(items, i);
            }
            let (promoted_item, after) = item.into_global(jvm, promoted, next);
            proof {
                lemma_part_of_part(
                    promoted@,
                    from as int,
                    from + total,
                    scoped_before(items, i),
                    scoped_before(items, i + 1),
                );
            }
            out.push(promoted_item);
            next = after;
            proof {
                assert forall|k: int| 0 <= k < out@.len() implies (#[trigger] items[k]).promotes_to(
                    part.subrange(scoped_before(items, k), scoped_before(items, k + 1)),
                    &out@[k],
                ) by {
                    if k < i {
                        assert(out@[k] == done[k]);
                    }
                }
            }
        }
        proof {
            reveal(scoped_before);
            assert(items.take(items.len() as int) =~= items);
            assert(part =~= promoted@.subrange(from as int, next as int));
        }
        (out, next)
    }
}

impl<'jvm, J: IntoGlobal<'jvm>> IntoGlobal<'jvm> for Error<J> {
    type Output = Error<J::Output>;

    open spec fn scoped(&self) -> Seq<ObjectPtr> {
        match *self {
            Error::Thrown(t) => t.scoped(),
            _ => Seq::empty(),
        }
    }

    fn push_scoped(&self, out: &mut Vec<ObjectPtr>) {
        match self {
            Error::Thrown(t) => t.push_scoped(out),
            _ => {
                assert(out@ =~= old(out)@ + self.scoped());
            },
        }
    }

    /// What was thrown is made independent; every other error stays as it
    /// is.
    open spec fn promotes_to(&self, promoted: Seq<ObjectPtr>, out: &Error<J::Output>) -> bool {
        match (*self, *out) {
            (Error::Thrown(t), Error::Thrown(o)) => t.promotes_to(promoted, &o),
            (Error::SliceTooLong(n), Error::SliceTooLong(m)) => promoted.len() == 0 && n == m,
            (Error::NullDeref, Error::NullDeref) => promoted.len() == 0,
            (Error::NestedUsage, Error::NestedUsage) => promoted.len() == 0,
            (Error::JvmAlreadyExists, Error::JvmAlreadyExists) => promoted.len() == 0,
            (Error::JvmInternal(a), Error::JvmInternal(b)) => promoted.len() == 0 && a == b,
            _ => false,
        }
    }

    fn into_global(self, jvm: &mut Jvm<'jvm>, promoted: &Vec<ObjectPtr>, from: usize) -> (out: (
        Error<J::Output>,
        usize,
    )) {
        match self {
            Error::Thrown(t) => {
                let (o, next) = t.into_global(jvm, promoted, from);
                (Error::Thrown(o), next)
            },
            Error::SliceTooLong(s) => (Error::SliceTooLong(s), from),
            Error::NullDeref => (Error::NullDeref, from),
            Error::NestedUsage => (Error::NestedUsage, from),
            Error::JvmAlreadyExists => (Error::JvmAlreadyExists, from),
            Error::JvmInternal(m) => (Error::JvmInternal(m), from),
        }
    }
}

/// A value that an operation gave and that waits to be made independent:
/// the managed runtime is first asked for an independent reference to each
/// of the objects that `scoped` names.
pub struct Promotion<V> {
    value: V,
}

impl<V> Promotion<V> {
    /// The value that waits.
    pub closed spec fn value(&self) -> V {
        self.value
    }

    /// The promotion of a value.
    pub fn new(value: V) -> (promotion: Promotion<V>)
        ensures
            promotion.value() == value,
    {
        Promotion { value }
    }

    /// The objects to which the managed runtime is asked for independent
    /// references, in order.
    pub fn scoped<'jvm>(&self) -> (objects: Vec<ObjectPtr>) where V: IntoGlobal<'jvm>
        ensures
            objects@ == self.value().scoped(),
    {
        let mut objects: Vec<ObjectPtr> = Vec::new();
        self.value.push_scoped(&mut objects);
        assert(objects@ =~= self.value().scoped());
        objects
    }

    /// The value made independent with the handles that the managed
    /// runtime handed out, one for each object of `scoped`, in order. Where
    /// the handles are not as many as the objects, nothing is promoted and
    /// the promotion comes back.
    pub fn complete<'jvm>(self, jvm: &mut Jvm<'jvm>, promoted: &Vec<ObjectPtr>) -> (result: Result<
        V::Output,
        Promotion<V>,
    >) where V: IntoGlobal<'jvm>
        ensures
            match result {
                Ok(out) => promoted@.len() == self.value().scoped().len()
                    && self.value().promotes_to(promoted@, &out),
                Err(back) => promoted@.len() != self.value().scoped().len() && back == self,
            },
            *final(jvm) == *old(jvm),
    {
        let needed = self.scoped();
        if needed.len() != promoted.len() {
            return Err(self);
        }
        let (out, next) = self.value.into_global(jvm, promoted, 0);
        assert(promoted@.subrange(0, next as int) =~= promoted@);
        Ok(out)
    }
}

/// An operation that runs another operation and has what it gives made
/// independent of the entry.
pub struct GlobalOp<J> {
    j: J,
}

/// Whether `pending` is what a global operation gives where the operation
/// that it runs gave `outcome`: the value, waiting to be made independent,
/// or the same error.
pub open spec fn pending_outcome<V, E>(outcome: Result<V, E>, pending: Result<Promotion<V>, E>) -> bool {
    match (outcome, pending) {
        (Ok(v), Ok(p)) => p.value() == v,
        (Err(e), Err(f)) => e == f,
        _ => false,
    }
}

impl<J> GlobalOp<J> {
    /// The operation that this one runs first.
    pub closed spec fn inner(&self) -> J {
        self.j
    }

    /// The operation that runs `j` and promotes what it gives.
    pub fn new(j: J) -> (op: GlobalOp<J>)
        ensures
            op.inner() == j,
    {
        GlobalOp { j }
    }

    /// What the operation gives for what the inner operation gave: a value
    /// waits to be made independent; an error is handed on as it is.
    pub fn finish<V, E>(outcome: Result<V, E>) -> (pending: Result<Promotion<V>, E>)
        ensures
            pending_outcome(outcome, pending),
    {
        match outcome {
            Ok(v) => Ok(Promotion::new(v)),
            Err(e) => Err(e),
        }
    }
}

impl<'jvm, J> JvmOp<'jvm> for GlobalOp<J> where J: JvmOp<'jvm>, J::Output: IntoGlobal<'jvm> {
    type Output = Promotion<J::Output>;

    /// The operation that is run first ends with some outcome and leaves
    /// the entry as it is left in the end; the result is that outcome with
    /// its value waiting to be made independent.
    open spec fn gives(
        self,
        before: Jvm<'jvm>,
        after: Jvm<'jvm>,
        result: Result<Self::Output, Error<Local<'jvm, crate::java::Throwable>>>,
    ) -> bool {
        exists|inner: Result<J::Output, Error<Local<'jvm, crate::java::Throwable>>>|
            #[trigger] self.inner().gives(before, after, inner) && pending_outcome(inner, result)
    }

    fn execute(self, jvm: &mut Jvm<'jvm>) -> (result: Result<
        Self::Output,
        Error<Local<'jvm, crate::java::Throwable>>,
    >) {
        let ghost before = *jvm;
        let outcome = self.j.execute(jvm);
        let result = GlobalOp::<J>::finish(outcome);
        assert(self.inner().gives(before, *jvm, outcome) && pending_outcome(outcome, result));
        result
    }
}

} // verus!
