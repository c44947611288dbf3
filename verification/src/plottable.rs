//! Values that a row can show: comparable, and with a label.
use vstd::prelude::*;
use vstd::std_specs::cmp::PartialEqSpec;
use vstd::std_specs::cmp::PartialEqSpecImpl;
use vstd::string::StringExecFns;
use crate::decimal::format_integer;
use crate::decimal::format_trimmed;
use crate::decimal::signed_digits;
use crate::decimal::trimmed_fixed3;

verus! {

/// A label as contracts see it: its characters.
pub type LabelView = Seq<char>;

/// A value of a discrete signal.
///
/// Two neighbouring samples belong to one segment when `==` says so, and a
/// segment is labelled with what `display` returns for its value. An
/// implementation states what its `==` computes and shows that values it
/// calls equal carry one label.
pub trait EnumPlottable: PartialEq + Sized {
    /// The text that stands for the value.
    spec fn label(&self) -> LabelView;

    /// `==` on this type computes `eq_spec`.
    proof fn equality_is_specified()
        ensures
            Self::obeys_eq_spec(),
    ;

    /// Values that compare equal are labelled alike.
    proof fn equal_values_share_label(&self, other: &Self)
        requires
            self.eq_spec(other),
        ensures
            self.label() == other.label(),
    ;

    fn display(&self) -> (s: String)
        ensures
            s@ == self.label(),
    ;
}

impl EnumPlottable for bool {
    open spec fn label(&self) -> LabelView {
        if *self {
            "true"@
        } else {
            "false"@
        }
    }

    proof fn equality_is_specified() {
    }

    proof fn equal_values_share_label(&self, other: &Self) {
    }

    fn display(&self) -> (s: String) {
        if *self {
            String::from_str("true")
        } else {
            String::from_str("false")
        }
    }
}

impl EnumPlottable for i64 {
    open spec fn label(&self) -> LabelView {
        signed_digits(*self as int)
    }

    proof fn equality_is_specified() {
    }

    proof fn equal_values_share_label(&self, other: &Self) {
    }

    fn display(&self) -> (s: String) {
        format_integer(*self)
    }
}

/// A number with three decimals, held as its count of thousandths. Its label
/// is the shortest decimal text: `Thousandths(1500)` shows as `1.5`.
#[derive(Clone, Copy, Debug)]
pub struct Thousandths(pub i64);

impl PartialEq for Thousandths {
    fn eq(&self, other: &Self) -> (r: bool) {
        self.0 == other.0
    }
}

impl PartialEqSpecImpl for Thousandths {
    open spec fn obeys_eq_spec() -> bool {
        true
    }

    open spec fn eq_spec(&self, other: &Self) -> bool {
        self.0 == other.0
    }
}

impl EnumPlottable for Thousandths {
    open spec fn label(&self) -> LabelView {
        trimmed_fixed3(self.0 as int)
    }

    proof fn equality_is_specified() {
    }

    proof fn equal_values_share_label(&self, other: &Self) {
    }

    fn display(&self) -> (s: String) {
        format_trimmed(self.0)
    }
}

} // verus!
