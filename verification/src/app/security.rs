//! Security alerts: asking for the open ones, listing them by severity and
//! kind, and opening the selected one.

use vstd::prelude::*;

use super::ci::repos_view;
use super::{alert_views, count_string, count_text, process_view, App, AppView, ProcessSpec, ProcessView};
use crate::order::{is_stable_sort, stable_sort};
use crate::text::string_views;
use crate::types::{GitRepo, RepoView, SecurityAlert};

verus! {

impl AppView {
    /// Opens the alert list, empty until alerts arrive, for the
    /// repositories returned.
    pub open spec fn fetch_alerts(self, all: bool) -> (AppView, Option<Seq<RepoView>>) {
        match self.selection(all) {
            None => (self, None),
            Some(rs) => (
                AppView {
                    alert_list: Seq::empty(),
                    alert_index: 0,
                    security_mode: true,
                    status_line: "⟳ fetching security alerts..."@,
                    ..self
                },
                Some(rs),
            ),
        }
    }

    /// The status line once every alert query has answered.
    pub open spec fn alert_done_status(n: nat) -> Seq<char> {
        if n == 0 {
            "No open security alerts found."@
        } else {
            count_text(n, " alert(s)  ·  Enter open  ·  Esc close"@)
        }
    }

    /// The browser view of the selected alert.
    pub open spec fn alert_web(self) -> Option<ProcessView> {
        if self.alert_index < self.alert_list.len() {
            Some(
                ProcessView {
                    program: "open"@,
                    args: seq![self.alert_list[self.alert_index as int].url],
                    dir: None,
                },
            )
        } else {
            None
        }
    }
}

/// The alerts listed after `received` arrived: all of them ordered by
/// severity and kind where any arrived.
fn merge_alerts(list: Vec<SecurityAlert>, received: Vec<SecurityAlert>) -> (r: Vec<SecurityAlert>)
    ensures
        received@.len() > 0 ==> is_stable_sort(r@, list@ + received@),
        received@.len() == 0 ==> r@ == list@,
        r@.len() == list@.len() + received@.len(),
{
    if received.len() == 0 {
        return list;
    }
    let ghost all = list@ + received@;
    let mut l = list;
    let mut more = received;
    l.append(&mut more);
    assert(l@ == all);
    stable_sort(l)
}

impl App {
    /// Opens the alert list and returns the repositories to ask about.
    pub fn fetch_alerts(&mut self, all: bool) -> (r: Option<Vec<GitRepo>>)
        requires
            old(self)@.wf(),
        ensures
            (final(self)@, repos_view(r)) == old(self)@.fetch_alerts(all),
    {
        let repos = self.selected_repos(all);
        if repos.is_none() {
            return None;
        }
        let ghost target = old(self)@.fetch_alerts(all).0;
        self.alert_list = Vec::new();
        self.alert_index = 0;
        self.security_mode = true;
        self.status_line = String::from_str("⟳ fetching security alerts...");
        assert(alert_views(self.alert_list@) =~= Seq::empty());
        assert(self@ == target);
        repos
    }

    /// Takes the alerts that arrived, keeping the list ordered by severity
    /// (critical, high, medium, low, other) then kind (dependency, code,
    /// secret, other), arrival order among equals, and, when every query has
    /// answered (`done`), reports how many alerts there are.  Returns
    /// `done`.
    pub fn drain_alerts(&mut self, received: Vec<SecurityAlert>, done: bool) -> (r: bool)
        ensures
            r == done,
            received@.len() > 0 ==> is_stable_sort(
                final(self).alert_list@,
                old(self).alert_list@ + received@,
            ),
            received@.len() == 0 ==> final(self).alert_list@ == old(self).alert_list@,
            final(self)@ == (AppView {
                alert_list: final(self)@.alert_list,
                is_running: if done {
                    false
                } else {
                    old(self)@.is_running
                },
                status_line: if done {
                    AppView::alert_done_status(final(self)@.alert_list.len())
                } else {
                    old(self)@.status_line
                },
                ..old(self)@
            }),
    {
        let mut list: Vec<SecurityAlert> = Vec::new();
        std::mem::swap(&mut list, &mut self.alert_list);
        let merged = merge_alerts(list, received);
        let n = merged.len();
        self.alert_list = merged;
        if done {
            let line = if n == 0 {
                String::from_str("No open security alerts found.")
            } else {
                count_string(n, " alert(s)  ·  Enter open  ·  Esc close")
            };
            self.is_running = false;
            self.status_line = line;
        }
        done
    }

    /// Opens the selected alert in the browser.
    pub fn alert_open_web(&self) -> (p: Option<ProcessSpec>)
        ensures
            process_view(p) == self@.alert_web(),
    {
        if self.alert_index < self.alert_list.len() {
            let mut args: Vec<String> = Vec::new();
            args.push(self.alert_list[self.alert_index].url.clone());
            assert(string_views(args@) =~= seq![self@.alert_list[self.alert_index as int].url]);
            Some(ProcessSpec { program: String::from_str("open"), args, dir: None })
        } else {
            None
        }
    }
}

} // verus!
