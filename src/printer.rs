//! The printer descriptor: an owned copy of the name the host reported, its
//! status and attribute flags, and a memoised readable form of the name.
use vstd::prelude::*;

verus! {

/// What `String::from_utf16_lossy` makes of a sequence of UTF-16 code units.
pub uninterp spec fn utf16_lossy(units: Seq<u16>) -> Seq<char>;

/// Relies on `String::from_utf16_lossy`: the result depends on the code units
/// alone; no units give the empty string, and since only a zero unit decodes
/// to U+0000 (anything invalid becomes U+FFFD), units without a zero give a
/// string without a null character.
#[verifier::external_body]
fn decode_utf16_lossy(units: &[u16]) -> (r: String)
    ensures
        r@ == utf16_lossy(units@),
        units@.len() == 0 ==> r@.len() == 0,
        (forall|k: int| 0 <= k < units@.len() ==> units@[k] != 0) ==> (forall|c: int|
            0 <= c < r@.len() ==> r@[c] != '\0'),
{
    String::from_utf16_lossy(units)
}

/// True when no code unit of `s` is zero.
pub open spec fn no_zero_unit(s: Seq<u16>) -> bool {
    forall|k: int| 0 <= k < s.len() ==> s[k] != 0
}

/// True when no character of `s` is the null character.
pub open spec fn no_null_char(s: Seq<char>) -> bool {
    forall|c: int| 0 <= c < s.len() ==> s[c] != '\0'
}

/// `name` followed by the two zero code units that terminate it.
pub open spec fn terminated(name: Seq<u16>) -> Seq<u16> {
    name + seq![0u16, 0u16]
}

/// The raw name ends with two zero code units.
pub open spec fn ends_with_two_zeros(p: PrinterView) -> bool {
    &&& p.raw.len() >= 2
    &&& p.raw[p.raw.len() - 1] == 0
    &&& p.raw[p.raw.len() - 2] == 0
}

/// What a descriptor stands for: the raw name with its terminator, the
/// status flags and the attribute flags.
pub ghost struct PrinterView {
    pub raw: Seq<u16>,
    pub status: u32,
    pub attributes: u32,
}

impl PrinterView {
    /// The name without its two terminating zero units.
    pub open spec fn name_units(self) -> Seq<u16> {
        self.raw.subrange(0, self.raw.len() - 2)
    }

    /// The readable name.
    pub open spec fn display(self) -> Seq<char> {
        utf16_lossy(self.name_units())
    }

    /// A printer is ready exactly when its status flags are all clear.
    pub open spec fn ready(self) -> bool {
        self.status == 0
    }
}

/// A printer known to the host's printing subsystem.
#[derive(Debug)]
pub struct WindowsPrinter {
    raw_vec: Vec<u16>,
    name: Option<String>,
    raw_status: u32,
    raw_attributes: u32,
}

impl View for WindowsPrinter {
    type V = PrinterView;

    closed spec fn view(&self) -> PrinterView {
        PrinterView { raw: self.raw_vec@, status: self.raw_status, attributes: self.raw_attributes }
    }
}

impl WindowsPrinter {
    /// The raw name holds a name without zero units followed by two zero
    /// units, and a memoised readable name, once there, is the decoding of it
    /// and holds no null character.
    pub closed spec fn wf(&self) -> bool {
        &&& self.raw_vec@.len() >= 2
        &&& self.raw_vec@ == terminated(self@.name_units())
        &&& no_zero_unit(self@.name_units())
        &&& (self.name matches Some(s) ==> s@ == self@.display() && no_null_char(s@))
    }

    /// The readable name, if it has been computed yet.
    pub closed spec fn cached_name(&self) -> Option<Seq<char>> {
        match self.name {
            Some(s) => Some(s@),
            None => None,
        }
    }

    /// What well-formedness says of the view: the raw name is a name without
    /// zero units followed by two zero units.
    pub proof fn lemma_wf_raw_name(&self)
        requires
            self.wf(),
        ensures
            self@.raw.len() >= 2,
            self@.raw == terminated(self@.name_units()),
            no_zero_unit(self@.name_units()),
    {
    }

    /// A descriptor for the printer called `printer_name` (the code units of
    /// a null-terminated name, without its terminator).
    pub fn new(printer_name: &[u16], raw_status: u32, raw_attributes: u32) -> (r: Self)
        requires
            no_zero_unit(printer_name@),
        ensures
            r.wf(),
            r@.raw == terminated(printer_name@),
            r@.name_units() == printer_name@,
            r@.status == raw_status,
            r@.attributes == raw_attributes,
            r.cached_name() is None,
    {
        let mut raw_vec: Vec<u16> = Vec::new();
        let mut i: usize = 0;
        while i < printer_name.len()
            invariant
                i <= printer_name@.len(),
                raw_vec@ == printer_name@.subrange(0, i as int),
            decreases printer_name@.len() - i,
        {
            raw_vec.push(printer_name[i]);
            i = i + 1;
        }
        raw_vec.push(0);
        raw_vec.push(0);
        proof {
            assert(printer_name@.subrange(0, i as int) == printer_name@);
            assert(raw_vec@ == terminated(printer_name@));
            assert(raw_vec@.subrange(0, raw_vec@.len() - 2) == printer_name@);
        }
        WindowsPrinter { raw_vec, name: None, raw_status, raw_attributes }
    }

    /// The raw name: its code units followed by two zero units.
    pub fn get_raw_vec(&self) -> (r: &Vec<u16>)
        ensures
            r@ == self@.raw,
    {
        &self.raw_vec
    }

    /// The status flags as the host reported them.
    pub fn raw_status(&self) -> (r: u32)
        ensures
            r == self@.status,
    {
        self.raw_status
    }

    /// The attribute flags as the host reported them.
    pub fn raw_attributes(&self) -> (r: u32)
        ensures
            r == self@.attributes,
    {
        self.raw_attributes
    }

    /// Whether the printer is ready: its own status flags are all clear.
    pub fn is_ready(&self) -> (r: bool)
        ensures
            r == self@.ready(),
    {
        self.raw_status == 0
    }

    /// The readable name. It is decoded on the first call and kept; later
    /// calls hand back the kept string and decode nothing.
    pub fn get_name(&mut self) -> (r: String)
        requires
            old(self).wf(),
        ensures
            final(self).wf(),
            final(self)@ == old(self)@,
            r@ == old(self)@.display(),
            no_null_char(r@),
            final(self).cached_name() == Some(r@),
            old(self).cached_name() is Some ==> *final(self) == *old(self),
    {
        match &self.name {
            Some(s) => s.clone(),
            None => {
                let len = self.raw_vec.len();
                let units = vstd::slice::slice_subrange(self.raw_vec.as_slice(), 0, len - 2);
                let s = decode_utf16_lossy(units);
                let r = s.clone();
                self.name = Some(s);
                r
            },
        }
    }
}

} // verus!
