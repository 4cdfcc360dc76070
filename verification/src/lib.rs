//! Typestate builders for phenopacket records.
//!
//! A builder carries one marker type per mandatory field. The marker reads
//! [`Unset`] until the field's setter has run and [`Filled`] after it, and
//! `build` exists only for the builder whose markers all read [`Filled`].
//! Every builder keeps, as its type invariant, that a marker reads [`Filled`]
//! exactly when the field holds a value, so `build` has no precondition and
//! cannot fail.

use vstd::prelude::*;

pub mod base;
pub mod individual;
pub mod laws;
pub mod meta_data;
pub mod phenopackets;
pub mod phenotypic_feature;
pub mod schema;
pub mod timestamp;

pub use crate::base::{
    AgeBuilder, ExternalReferenceBuilder, GestationalAgeBuilder, OntologyClassBuilder,
    TimeElementBuilder,
};
pub use crate::individual::{IndividualBuilder, VitalStatusBuilder};
pub use crate::meta_data::{MetaDataBuilder, ResourceBuilder, UpdateBuilder};
pub use crate::phenopackets::PhenopacketBuilder;
pub use crate::phenotypic_feature::PhenotypicFeatureBuilder;
pub use crate::schema::OntologyClass;
pub use crate::timestamp::{TimestampBuilder, TimestampParseError, TimestampRejected};

verus! {

/// Marker of a mandatory field that has no value yet.
#[derive(Copy, Clone, Debug, Default, PartialEq, Eq, Hash)]
pub struct Unset;

/// Marker of a mandatory field that has its value.
#[derive(Copy, Clone, Debug, PartialEq, Eq, Hash)]
pub struct Filled;

/// The state of one mandatory field, carried in a builder's type.
pub trait Slot {
    /// Whether the field has its value.
    spec fn filled() -> bool;
}

impl Slot for Unset {
    open spec fn filled() -> bool {
        false
    }
}

impl Slot for Filled {
    open spec fn filled() -> bool {
        true
    }
}

/// A record type that has a builder.
pub trait Buildable: Sized {
    type Builder: Default;

    /// A builder in its initial state: what `Builder::default()` returns.
    fn builder() -> (b: Self::Builder)
        ensures
            call_ensures(Self::Builder::default, (), b),
    {
        Self::Builder::default()
    }
}

/// Anything that finalizes into a `T`: a `T` itself, a builder of `T` whose
/// mandatory fields are all set, text where a `String` is wanted, or a
/// narrower integer where an integer is wanted.
pub trait Build<T: DeepView>: Sized {
    /// The model of the value that `build` returns.
    spec fn built(self) -> T::V;

    fn build(self) -> (r: T)
        ensures
            r.deep_view() == self.built(),
    ;
}

impl<T: DeepView> Build<T> for T {
    open spec fn built(self) -> T::V {
        self.deep_view()
    }

    fn build(self) -> (r: T) {
        self
    }
}

impl<'a> Build<String> for &'a str {
    open spec fn built(self) -> Seq<char> {
        self@
    }

    fn build(self) -> (r: String) {
        self.to_owned()
    }
}

impl<'a> Build<String> for &'a String {
    open spec fn built(self) -> Seq<char> {
        self@
    }

    fn build(self) -> (r: String) {
        self.clone()
    }
}

impl Build<i32> for i8 {
    open spec fn built(self) -> i32 {
        self as i32
    }

    fn build(self) -> (r: i32) {
        self as i32
    }
}

impl Build<i32> for i16 {
    open spec fn built(self) -> i32 {
        self as i32
    }

    fn build(self) -> (r: i32) {
        self as i32
    }
}

impl Build<i32> for u8 {
    open spec fn built(self) -> i32 {
        self as i32
    }

    fn build(self) -> (r: i32) {
        self as i32
    }
}

impl Build<i32> for u16 {
    open spec fn built(self) -> i32 {
        self as i32
    }

    fn build(self) -> (r: i32) {
        self as i32
    }
}

impl Build<i64> for i8 {
    open spec fn built(self) -> i64 {
        self as i64
    }

    fn build(self) -> (r: i64) {
        self as i64
    }
}

impl Build<i64> for i16 {
    open spec fn built(self) -> i64 {
        self as i64
    }

    fn build(self) -> (r: i64) {
        self as i64
    }
}

impl Build<i64> for i32 {
    open spec fn built(self) -> i64 {
        self as i64
    }

    fn build(self) -> (r: i64) {
        self as i64
    }
}

impl Build<i64> for u8 {
    open spec fn built(self) -> i64 {
        self as i64
    }

    fn build(self) -> (r: i64) {
        self as i64
    }
}

impl Build<i64> for u16 {
    open spec fn built(self) -> i64 {
        self as i64
    }

    fn build(self) -> (r: i64) {
        self as i64
    }
}

impl Build<i64> for u32 {
    open spec fn built(self) -> i64 {
        self as i64
    }

    fn build(self) -> (r: i64) {
        self as i64
    }
}

impl Build<u32> for u8 {
    open spec fn built(self) -> u32 {
        self as u32
    }

    fn build(self) -> (r: u32) {
        self as u32
    }
}

impl Build<u32> for u16 {
    open spec fn built(self) -> u32 {
        self as u32
    }

    fn build(self) -> (r: u32) {
        self as u32
    }
}

/// The models of what a sequence of items finalizes to, in order.
pub open spec fn built_all<T: DeepView, B: Build<T>>(items: Seq<B>) -> Seq<T::V> {
    Seq::new(items.len(), |i: int| items[i].built())
}

/// Finalizes every item, first to last, and appends the results to `target`.
pub fn build_all_into<T: DeepView, B: Build<T>>(target: &mut Vec<T>, items: Vec<B>)
    ensures
        final(target).deep_view() == old(target).deep_view() + built_all::<T, B>(items@),
{
    let ghost before = target.deep_view();
    let ghost all = items@;
    for item in it: items
        invariant
            it.seq() == all,
            target.deep_view() == before + built_all::<T, B>(all.take(it.index())),
    {
        let ghost done = it.index();
        let ghost held = target.deep_view();
        let built = item.build();
        target.push(built);
        assert(target.deep_view() == held.push(built.deep_view()));
        assert(built_all::<T, B>(all.take(done + 1)) == built_all::<T, B>(all.take(done)).push(
            all[done].built(),
        ));
    }
    assert(all.take(all.len() as int) == all);
}

/// A coded concept from its identifier and its label.
pub fn oc(id: impl Build<String>, label: impl Build<String>) -> (r: OntologyClass)
    ensures
        r@ == (schema::OntologyClassModel { id: id.built(), label: label.built() }),
{
    OntologyClass { id: id.build(), label: label.build() }
}

} // verus!
