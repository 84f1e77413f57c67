//! The binding of a signal.

use crate::version::Version;
use vstd::prelude::*;

verus! {

/// What the emitter needs to write the function that connects a handler to
/// a signal.
#[derive(Debug)]
pub struct Info {
    /// The name of the connecting function.
    pub connect_name: String,
    pub signal_name: String,
    /// The handle of the trampoline that was synthesized for the signal.
    pub trampoline_name: String,
    pub version: Option<Version>,
    pub deprecated_version: Option<Version>,
    pub doc_hidden: bool,
}

/// The mathematical value of an `Info`.
pub struct InfoView {
    pub connect_name: Seq<char>,
    pub signal_name: Seq<char>,
    pub trampoline_name: Seq<char>,
    pub version: Option<Version>,
    pub deprecated_version: Option<Version>,
    pub doc_hidden: bool,
}

impl View for Info {
    type V = InfoView;

    open spec fn view(&self) -> InfoView {
        InfoView {
            connect_name: self.connect_name@,
            signal_name: self.signal_name@,
            trampoline_name: self.trampoline_name@,
            version: self.version,
            deprecated_version: self.deprecated_version,
            doc_hidden: self.doc_hidden,
        }
    }
}

/// The view of an optional signal binding.
pub open spec fn info_view(info: Option<Info>) -> Option<InfoView> {
    match info {
        Some(i) => Some(i@),
        None => None,
    }
}

/// The views of a list of signal bindings, in order.
pub open spec fn info_views(infos: Seq<Info>) -> Seq<InfoView> {
    infos.map_values(|i: Info| i@)
}

} // verus!
