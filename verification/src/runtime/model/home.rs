//! State of the session list screen.
use vstd::prelude::*;

use crate::net::SessionSummary;

verus! {

/// State of the Home screen.
#[derive(Debug)]
pub struct HomeState {
    /// Sessions shown in the list.
    pub sessions: Vec<SessionSummary>,
    /// Index of the highlighted row.
    pub selected: usize,
    /// `true` while the session list is being fetched.
    pub loading: bool,
}

impl HomeState {
    /// A Home screen in its initial loading state, before sessions arrive.
    pub fn loading() -> (h: HomeState)
        ensures
            h.sessions@.len() == 0,
            h.selected == 0,
            h.loading,
    {
        HomeState { sessions: Vec::new(), selected: 0, loading: true }
    }
}

} // verus!
