use vstd::prelude::*;

verus! {

/// The only payload that travels from the poll side to the session side.
#[derive(Debug)]
pub enum StatusMessage {
    /// Show this text as the visible status.
    SetStatus(String),
    /// Remove the visible status.
    Clear,
}

impl View for StatusMessage {
    /// `Some(text)` for a status to show, `None` for a clear.
    type V = Option<Seq<char>>;

    open spec fn view(&self) -> Option<Seq<char>> {
        match self {
            StatusMessage::SetStatus(t) => Some(t@),
            StatusMessage::Clear => None,
        }
    }
}

impl PartialEq for StatusMessage {
    fn eq(&self, o: &StatusMessage) -> (r: bool) {
        match self {
            StatusMessage::SetStatus(a) => match o {
                StatusMessage::SetStatus(b) => a.eq(b),
                StatusMessage::Clear => false,
            },
            StatusMessage::Clear => match o {
                StatusMessage::SetStatus(_) => false,
                StatusMessage::Clear => true,
            },
        }
    }
}

impl vstd::std_specs::cmp::PartialEqSpecImpl for StatusMessage {
    open spec fn obeys_eq_spec() -> bool {
        true
    }

    open spec fn eq_spec(&self, o: &StatusMessage) -> bool {
        self@ == o@
    }
}

impl StatusMessage {
    /// The text that a `SetStatus` carries, or `None` for a clear.
    pub fn text(&self) -> (r: Option<&String>)
        ensures
            match r {
                Some(t) => self@ == Some(t@),
                None => self@ is None,
            },
    {
        match self {
            StatusMessage::SetStatus(t) => Some(t),
            StatusMessage::Clear => None,
        }
    }
}

} // verus!
