//! Values for walking the namespace and choosing the interrupt model.
use vstd::prelude::*;
use vstd::utf8::valid_utf8;
use vstd::string::StringSliceAdditionalSpecFns;

verus! {

/// How a walk of the namespace goes on after a device.
#[derive(Ord, PartialOrd, Eq, PartialEq, Copy, Clone, Debug, Structural)]
pub enum NsIterDecision {
    Continue,
    NextPeer,
    Break,
}

/// The code of a decision: its place in the declaration, 0 to 2. This is the
/// value handed to the C interface, although uACPI's own codes give `Break`
/// 1 and `NextPeer` 2.
pub open spec fn ns_iter_decision_code(d: NsIterDecision) -> u32 {
    match d {
        NsIterDecision::Continue => 0,
        NsIterDecision::NextPeer => 1,
        NsIterDecision::Break => 2,
    }
}

impl NsIterDecision {
    /// The code of this decision.
    pub fn code(&self) -> (r: u32)
        ensures
            r == ns_iter_decision_code(*self),
    {
        match self {
            NsIterDecision::Continue => 0,
            NsIterDecision::NextPeer => 1,
            NsIterDecision::Break => 2,
        }
    }
}

/// The interrupt model that the operating system uses.
#[derive(Ord, PartialOrd, Eq, PartialEq, Copy, Clone, Debug, Structural)]
pub enum InterruptModel {
    Pic,
    IoApic,
    IoSapic,
}

/// The code of an interrupt model, as the C interface receives it.
pub open spec fn interrupt_model_code(m: InterruptModel) -> u32 {
    match m {
        InterruptModel::Pic => 0,
        InterruptModel::IoApic => 1,
        InterruptModel::IoSapic => 2,
    }
}

impl InterruptModel {
    /// The code of this interrupt model.
    pub fn code(&self) -> (r: u32)
        ensures
            r == interrupt_model_code(*self),
    {
        match self {
            InterruptModel::Pic => 0,
            InterruptModel::IoApic => 1,
            InterruptModel::IoSapic => 2,
        }
    }
}

/// The text of a byte string, `None` unless the bytes are UTF-8.
#[verifier::external_body]
fn str_from_utf8(v: &[u8]) -> (r: Option<&str>)
    ensures
        r is Some <==> valid_utf8(v@),
        r matches Some(s) ==> s.spec_bytes() == v@,
{
    core::str::from_utf8(v).ok()
}

/// An id string (such as a `_HID`) that uACPI returned: its bytes, with the
/// terminating NUL.
#[derive(Debug, PartialEq, Eq)]
pub struct IdString {
    value: Vec<u8>,
}

impl View for IdString {
    type V = Seq<u8>;

    closed spec fn view(&self) -> Seq<u8> {
        self.value@
    }
}

/// Bytes that end in the only NUL among them and before it hold UTF-8 text.
pub open spec fn is_id_text(s: Seq<u8>) -> bool {
    &&& 0 < s.len()
    &&& s.last() == 0
    &&& forall|k: int| 0 <= k < s.len() - 1 ==> s[k] != 0
    &&& valid_utf8(s.drop_last())
}

impl IdString {
    /// The id string whose bytes, with the terminating NUL, are `value`.
    pub fn new(value: Vec<u8>) -> (r: IdString)
        ensures
            r@ == value@,
    {
        IdString { value }
    }

    /// Whether the bytes are a NUL-terminated UTF-8 string, which
    /// [`IdString::as_str`] needs.
    pub fn is_text(&self) -> (r: bool)
        ensures
            r == is_id_text(self@),
    {
        let len = self.value.len();
        if len == 0 || self.value[len - 1] != 0 {
            return false;
        }
        let mut k: usize = 0;
        while k < len - 1
            invariant
                0 < len == self.value@.len(),
                k <= len - 1,
                forall|j: int| 0 <= j < k ==> self.value@[j] != 0,
            decreases len - 1 - k,
        {
            if self.value[k] == 0 {
                return false;
            }
            k = k + 1;
        }
        let text = vstd::slice::slice_subrange(self.value.as_slice(), 0, len - 1);
        assert(text@ =~= self.value@.drop_last());
        str_from_utf8(text).is_some()
    }

    /// The text of the id string, without its NUL.
    pub fn as_str(&self) -> (r: &str)
        requires
            is_id_text(self@),
        ensures
            r.spec_bytes() == self@.drop_last(),
    {
        let len = self.value.len();
        let text = vstd::slice::slice_subrange(self.value.as_slice(), 0, len - 1);
        assert(text@ =~= self.value@.drop_last());
        str_from_utf8(text).unwrap()
    }
}

/// Continue is 0, next peer 1 and break 2: the declaration order.
pub proof fn lemma_ns_iter_decision_code_values(d: NsIterDecision)
    ensures
        (d == NsIterDecision::Continue) == (ns_iter_decision_code(d) == 0),
        (d == NsIterDecision::NextPeer) == (ns_iter_decision_code(d) == 1),
        (d == NsIterDecision::Break) == (ns_iter_decision_code(d) == 2),
{
}

/// The PIC model is 0, the I/O APIC model 1 and the I/O SAPIC model 2.
pub proof fn lemma_interrupt_model_code_values(m: InterruptModel)
    ensures
        (m == InterruptModel::Pic) == (interrupt_model_code(m) == 0),
        (m == InterruptModel::IoApic) == (interrupt_model_code(m) == 1),
        (m == InterruptModel::IoSapic) == (interrupt_model_code(m) == 2),
{
}

} // verus!
