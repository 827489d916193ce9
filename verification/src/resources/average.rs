//! Averages of a subject. The numbers are of a type that the caller picks:
//! they pass through as they are.

use crate::resources::defaults::{or_placeholder, text_or_placeholder};
use vstd::prelude::*;

verus! {

/// The averages of a subject as the upstream service sends them.
#[derive(Debug)]
pub struct UnrefinedAverage<N> {
    pub subject: Option<String>,
    pub value: N,
    pub class_value: N,
    pub difference: N,
}

pub struct UnrefinedAverageView<N> {
    pub subject: Option<Seq<char>>,
    pub value: N,
    pub class_value: N,
    pub difference: N,
}

impl<N> View for UnrefinedAverage<N> {
    type V = UnrefinedAverageView<N>;

    open spec fn view(&self) -> UnrefinedAverageView<N> {
        UnrefinedAverageView {
            subject: self.subject.deep_view(),
            value: self.value,
            class_value: self.class_value,
            difference: self.difference,
        }
    }
}

impl<N> DeepView for UnrefinedAverage<N> {
    type V = UnrefinedAverageView<N>;

    open spec fn deep_view(&self) -> UnrefinedAverageView<N> {
        self@
    }
}

/// The averages of a subject in the stable schema.
#[derive(Debug)]
pub struct Average<N> {
    pub subject: String,
    pub grade: N,
    pub class_grade: N,
    pub difference: N,
}

pub struct AverageView<N> {
    pub subject: Seq<char>,
    pub grade: N,
    pub class_grade: N,
    pub difference: N,
}

impl<N> View for Average<N> {
    type V = AverageView<N>;

    open spec fn view(&self) -> AverageView<N> {
        AverageView {
            subject: self.subject@,
            grade: self.grade,
            class_grade: self.class_grade,
            difference: self.difference,
        }
    }
}

impl<N> DeepView for Average<N> {
    type V = AverageView<N>;

    open spec fn deep_view(&self) -> AverageView<N> {
        self@
    }
}

/// The stable averages that are made of upstream averages.
pub open spec fn refined_average<N>(raw: UnrefinedAverageView<N>) -> AverageView<N> {
    AverageView {
        subject: or_placeholder(raw.subject),
        grade: raw.value,
        class_grade: raw.class_value,
        difference: raw.difference,
    }
}

impl<N> UnrefinedAverage<N> {
    /// Makes the stable averages of upstream averages. Every input has a
    /// result.
    pub fn refine(self) -> (r: Average<N>)
        ensures
            r@ == refined_average(self@),
    {
        Average {
            subject: text_or_placeholder(self.subject),
            grade: self.value,
            class_grade: self.class_value,
            difference: self.difference,
        }
    }
}

/// The stable averages that are made of upstream averages, one of each, in
/// their order.
pub open spec fn refined_averages<N>(raw: Seq<UnrefinedAverageView<N>>) -> Seq<AverageView<N>> {
    Seq::new(raw.len(), |i: int| refined_average(raw[i]))
}

/// Refines every one of `raw`, in order.
pub fn refine_averages<N>(raw: Vec<UnrefinedAverage<N>>) -> (r: Vec<Average<N>>)
    ensures
        r.deep_view() == refined_averages(raw.deep_view()),
{
    let ghost source = raw@;
    let mut refined: Vec<Average<N>> = Vec::new();
    for item in it: raw.into_iter()
        invariant
            it.seq() == source,
            refined.len() == it.index(),
            forall|j: int| 0 <= j < refined.len() ==> (#[trigger] refined@[j])@ == refined_average(source[j]@),
    {
        refined.push(item.refine());
    }
    refined
}

} // verus!
