//! Lookup by readable name among the descriptors of one enumeration.
use crate::error::PrinterError;
use crate::printer::{PrinterView, WindowsPrinter};
use crate::records::views;
use vstd::prelude::*;

verus! {

/// `i` is the first position in `s` whose readable name is `name`.
pub open spec fn first_named(s: Seq<PrinterView>, name: Seq<char>, i: int) -> bool {
    &&& 0 <= i < s.len()
    &&& s[i].display() == name
    &&& forall|j: int| 0 <= j < i ==> (#[trigger] s[j]).display() != name
}

/// No descriptor in `s` has the readable name `name`.
pub open spec fn none_named(s: Seq<PrinterView>, name: Seq<char>) -> bool {
    forall|j: int| 0 <= j < s.len() ==> (#[trigger] s[j]).display() != name
}

/// All descriptors in `s` are well formed.
pub open spec fn all_wf(s: Seq<WindowsPrinter>) -> bool {
    forall|k: int| 0 <= k < s.len() ==> (#[trigger] s[k]).wf()
}

/// Whether a decoded readable name is the one asked for: exact equality,
/// case included.
pub fn name_matches(display: &String, printer_name: &String) -> (r: bool)
    ensures
        r == (display@ == printer_name@),
{
    *display == *printer_name
}

impl WindowsPrinter {
    /// Looks up, among the descriptors of one enumeration, the first whose
    /// readable name equals `printer_name` exactly.
    pub fn from_str(mut printers: Vec<WindowsPrinter>, printer_name: &str) -> (r: Result<
        WindowsPrinter,
        PrinterError,
    >)
        requires
            all_wf(printers@),
        ensures
            match r {
                Ok(p) => p.wf() && exists|i: int|
                    first_named(views(printers@), printer_name@, i) && p@ == printers@[i]@,
                Err(e) => e == PrinterError::NotFound && none_named(
                    views(printers@),
                    printer_name@,
                ),
            },
    {
        let ghost all = printers@;
        let target = printer_name.to_owned();
        let n = printers.len();
        let mut i: usize = 0;
        let mut found: Option<WindowsPrinter> = None;
        while i < n && found.is_none()
            invariant
                n == all.len(),
                i <= n,
                found is None ==> printers@ == all.subrange(i as int, n as int),
                all_wf(all),
                target@ == printer_name@,
                forall|j: int| 0 <= j < i ==> (#[trigger] all[j])@.display() != printer_name@,
                match found {
                    Some(p) => p.wf() && first_named(views(all), printer_name@, i as int)
                        && p@ == all[i as int]@,
                    None => true,
                },
            decreases n - i + (if found is Some { 0int } else { 1int }),
        {
            assert(printers@[0] == all[i as int]);
            let mut p = printers.remove(0);
            let name = p.get_name();
            if name_matches(&name, &target) {
                proof {
                    let vs = views(all);
                    assert(vs[i as int] == all[i as int]@);
                    assert forall|j: int| 0 <= j < i implies (#[trigger] vs[j]).display()
                        != printer_name@ by {
                        assert(vs[j] == all[j]@);
                    }
                }
                found = Some(p);
            } else {
                assert(printers@ =~= all.subrange(i + 1, n as int));
                i = i + 1;
            }
        }
        match found {
            Some(p) => Ok(p),
            None => {
                proof {
                    let vs = views(all);
                    assert forall|j: int| 0 <= j < vs.len() implies (#[trigger] vs[j]).display()
                        != printer_name@ by {
                        assert(vs[j] == all[j]@);
                    }
                }
                Err(PrinterError::NotFound)
            },
        }
    }
}

} // verus!
