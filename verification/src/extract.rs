//! Reading emitted events back out of `tracing` records.

use vstd::prelude::*;

use crate::text::same_text;

verus! {

/// Collects the JSON envelope from the fields of a `tracing` record, visited
/// one by one.
#[derive(Debug)]
pub struct EventVisitor {
    json: Option<String>,
}

impl EventVisitor {
    /// The envelope found so far.
    pub closed spec fn found(self) -> Option<Seq<char>> {
        self.json.deep_view()
    }

    /// A visitor that has seen no field.
    pub fn new() -> (visitor: Self)
        ensures
            visitor.found() is None,
    {
        EventVisitor { json: None }
    }

    /// Visits a field recorded as a string. The field `event` holds the
    /// envelope, and replaces what was found before.
    pub fn record_str(&mut self, field: &str, value: &str)
        ensures
            final(self).found() == (if field@ == "event"@ {
                Some(value@)
            } else {
                old(self).found()
            }),
    {
        if same_text(field, "event") {
            self.json = Some(value.to_owned());
        }
    }

    /// Visits a field recorded through its `Debug` rendering. It counts only
    /// where no envelope was found before.
    pub fn record_debug(&mut self, field: &str, rendered: &str)
        ensures
            final(self).found() == (if field@ == "event"@ && old(self).found() is None {
                Some(rendered@)
            } else {
                old(self).found()
            }),
    {
        if same_text(field, "event") && self.json.is_none() {
            self.json = Some(rendered.to_owned());
        }
    }

    /// The envelope of the record, where it was emitted under the `rig_tap`
    /// target and has one.
    pub fn finish(self, target: &str) -> (json: Option<String>)
        ensures
            json.deep_view() == (if target@ == crate::emit::EVENT_TARGET@ {
                self.found()
            } else {
                None
            }),
    {
        if same_text(target, crate::emit::EVENT_TARGET) {
            self.json
        } else {
            None
        }
    }
}

} // verus!
