//! The life of the proxy: from binding its address to the end of its loop.

use crate::text::{decimal, decimal_text};
use crate::types::{ProxyConfig, ProxyEvent};
use vstd::prelude::*;

verus! {

/// What the proxy waits for while it serves.
#[derive(Debug, Clone, Copy, PartialEq, Eq, Structural)]
pub enum Activity {
    /// It is told to stop, or nobody is left to tell it so.
    StopSignal,
    /// A client has connected.
    Accepted,
    /// Clients cannot connect any more.
    AcceptFailed,
}

/// What the proxy does next.
#[derive(Debug, Clone, Copy, PartialEq, Eq, Structural)]
pub enum Next {
    /// Wait for the next activity.
    Wait,
    /// Serve the new connection on the side and wait for the next activity.
    Serve,
    /// Return.
    Return,
}

/// A decision of the proxy: what to report and what to do next.
pub struct Step {
    pub report: Option<ProxyEvent>,
    pub next: Next,
}

/// A report as a value that can be compared.
pub enum Report {
    Started,
    Stopped,
    Error(Seq<char>),
}

/// What a step reports, of the reports that a step can make.
pub open spec fn report_of(step: Step) -> Option<Report> {
    match step.report {
        Some(ProxyEvent::Started) => Some(Report::Started),
        Some(ProxyEvent::Stopped) => Some(Report::Stopped),
        Some(ProxyEvent::Error(e)) => Some(Report::Error(e@)),
        Some(ProxyEvent::Entry(_)) => None,
        None => None,
    }
}

/// The address to listen on.
pub open spec fn address_of(addr: Seq<char>, port: u16) -> Seq<char> {
    addr + ":"@ + decimal_text(port as nat)
}

/// The address to listen on.
pub fn listen_address(config: &ProxyConfig) -> (address: String)
    ensures
        address@ == address_of(config.bind_addr@, config.bind_port),
{
    let mut address = config.bind_addr.clone();
    address.append(":");
    address.append(decimal(config.bind_port as u64).as_str());
    address
}

/// The step after an attempt to listen, which may have failed with a message.
pub fn after_bind(bound: Result<(), String>) -> (step: Step)
    ensures
        !(step.report matches Some(ProxyEvent::Entry(_))),
        report_of(step) == Some(bind_report(bind_outcome(bound))),
        step.next == bind_next(bind_outcome(bound)),
{
    match bound {
        Ok(_) => Step { report: Some(ProxyEvent::Started), next: Next::Wait },
        Err(e) => {
            let mut message = "Bind error: ".to_owned();
            message.append(e.as_str());
            Step { report: Some(ProxyEvent::Error(message)), next: Next::Return }
        },
    }
}

/// The step after an activity.
pub fn after_activity(activity: Activity) -> (step: Step)
    ensures
        !(step.report matches Some(ProxyEvent::Entry(_))),
        report_of(step) == activity_report(activity),
        step.next == activity_next(activity),
{
    match activity {
        Activity::StopSignal => Step { report: Some(ProxyEvent::Stopped), next: Next::Return },
        Activity::Accepted => Step { report: None, next: Next::Serve },
        Activity::AcceptFailed => Step { report: None, next: Next::Return },
    }
}

/// How an attempt to listen ended: `None`, or the message of its error.
pub open spec fn bind_outcome(bound: Result<(), String>) -> Option<Seq<char>> {
    match bound {
        Ok(_) => None,
        Err(e) => Some(e@),
    }
}

/// What is reported of an attempt to listen.
pub open spec fn bind_report(failed: Option<Seq<char>>) -> Report {
    match failed {
        None => Report::Started,
        Some(e) => Report::Error("Bind error: "@ + e),
    }
}

/// What follows an attempt to listen.
pub open spec fn bind_next(failed: Option<Seq<char>>) -> Next {
    if failed is None {
        Next::Wait
    } else {
        Next::Return
    }
}

/// What is reported of an activity.
pub open spec fn activity_report(activity: Activity) -> Option<Report> {
    match activity {
        Activity::StopSignal => Some(Report::Stopped),
        _ => None,
    }
}

/// What follows an activity.
pub open spec fn activity_next(activity: Activity) -> Next {
    match activity {
        Activity::Accepted => Next::Serve,
        _ => Next::Return,
    }
}

/// What the proxy reports while it serves, until its first step that returns.
pub open spec fn loop_reports(activities: Seq<Activity>) -> Seq<Report>
    decreases activities.len(),
{
    if activities.len() == 0 {
        Seq::empty()
    } else {
        let first = match activity_report(activities[0]) {
            Some(r) => seq![r],
            None => Seq::empty(),
        };
        if activity_next(activities[0]) is Return {
            first
        } else {
            first + loop_reports(activities.skip(1))
        }
    }
}

/// How many connections the proxy serves until its first step that returns.
pub open spec fn loop_serves(activities: Seq<Activity>) -> nat
    decreases activities.len(),
{
    if activities.len() == 0 || activity_next(activities[0]) is Return {
        0
    } else {
        1 + loop_serves(activities.skip(1))
    }
}

/// What the proxy reports about itself over its whole life.
pub open spec fn life_reports(failed: Option<Seq<char>>, activities: Seq<Activity>) -> Seq<Report> {
    if bind_next(failed) is Return {
        seq![bind_report(failed)]
    } else {
        seq![bind_report(failed)] + loop_reports(activities)
    }
}

/// Hands out the numbers of requests, from zero on.
#[derive(Debug)]
pub struct RequestCounter {
    next: usize,
}

impl RequestCounter {
    /// The number that comes next.
    pub closed spec fn upcoming(&self) -> usize {
        self.next
    }

    /// A counter that starts at zero.
    pub fn new() -> (counter: RequestCounter)
        ensures
            counter.upcoming() == 0,
    {
        RequestCounter { next: 0 }
    }

    /// Hands out a number. Behind the largest one, zero comes again.
    pub fn assign(&mut self) -> (id: usize)
        ensures
            id == old(self).upcoming(),
            final(self).upcoming() == following(old(self).upcoming()),
    {
        let id = self.next;
        self.next = id.wrapping_add(1);
        id
    }
}

/// The number behind a number.
pub open spec fn following(id: usize) -> usize {
    if id == usize::MAX {
        0
    } else {
        (id + 1) as usize
    }
}

/// The number of the request that comes after `n` others.
pub open spec fn nth_id(n: nat) -> usize
    decreases n,
{
    if n == 0 {
        0
    } else {
        following(nth_id((n - 1) as nat))
    }
}

// ---------------------------------------------------------------------------------------------
// Laws
// ---------------------------------------------------------------------------------------------

/// Requests are numbered in order, until the numbers are used up.
pub proof fn requests_are_numbered_in_order(n: nat)
    requires
        n <= usize::MAX,
    ensures
        nth_id(n) == n,
    decreases n,
{
    if n > 0 {
        requests_are_numbered_in_order((n - 1) as nat);
    }
}

/// No two requests have the same number, until the numbers are used up.
pub proof fn request_numbers_differ(m: nat, n: nat)
    requires
        m < n <= usize::MAX,
    ensures
        nth_id(m) != nth_id(n),
{
    requests_are_numbered_in_order(m);
    requests_are_numbered_in_order(n);
}

/// While it serves, the proxy reports nothing about itself but, at most once and as its last
/// report, that it has stopped; and this it reports if and only if it is told to stop before
/// clients cannot connect any more.
pub proof fn stop_is_reported_once(activities: Seq<Activity>)
    ensures
        loop_reports(activities) == Seq::<Report>::empty() || loop_reports(activities)
            == seq![Report::Stopped],
        loop_reports(activities) == seq![Report::Stopped] <==> loop_serves(activities)
            < activities.len() && activities[loop_serves(activities) as int]
            == Activity::StopSignal,
    decreases activities.len(),
{
    assert(seq![Report::Stopped].len() == 1);
    if activities.len() > 0 && activities[0] == Activity::Accepted {
        stop_is_reported_once(activities.skip(1));
        let rest = loop_reports(activities.skip(1));
        assert(Seq::<Report>::empty() + rest =~= rest);
    }
}

/// The proxy serves the connections that come before the first other activity, and no more.
pub proof fn serves_until_first_end(activities: Seq<Activity>)
    ensures
        loop_serves(activities) <= activities.len(),
        forall|i: int|
            0 <= i < loop_serves(activities) ==> #[trigger] activities[i] == Activity::Accepted,
        loop_serves(activities) < activities.len() ==> activities[loop_serves(activities) as int]
            != Activity::Accepted,
    decreases activities.len(),
{
    if activities.len() > 0 && activities[0] == Activity::Accepted {
        let rest = activities.skip(1);
        serves_until_first_end(rest);
        assert forall|i: int| 0 <= i < loop_serves(activities) implies #[trigger] activities[i]
            == Activity::Accepted by {
            if i > 0 {
                assert(activities[i] == rest[i - 1]);
            }
        }
        if loop_serves(activities) < activities.len() {
            assert(activities[loop_serves(activities) as int] == rest[loop_serves(rest) as int]);
        }
    }
}

/// Over its life the proxy reports one of three things about itself: that it could not listen;
/// that it listens; or that it listens and then that it has stopped.
pub proof fn life_has_three_courses(failed: Option<Seq<char>>, activities: Seq<Activity>)
    ensures
        failed matches Some(e) ==> life_reports(failed, activities) == seq![
            Report::Error("Bind error: "@ + e),
        ],
        failed is None ==> life_reports(failed, activities) == seq![Report::Started]
            || life_reports(failed, activities) == seq![Report::Started, Report::Stopped],
{
    stop_is_reported_once(activities);
    if failed is None {
        if loop_reports(activities) == Seq::<Report>::empty() {
            assert(life_reports(failed, activities) =~= seq![Report::Started]);
        } else {
            assert(life_reports(failed, activities) =~= seq![Report::Started, Report::Stopped]);
        }
    }
}

/// The address to listen on is the configured one, whole, with the port behind it.
pub proof fn listens_where_told(config: &ProxyConfig, address: String, port: String)
    requires
        call_ensures(listen_address, (config,), address),
        call_ensures(decimal, (config.bind_port as u64,), port),
    ensures
        address@ == config.bind_addr@ + ":"@ + port@,
{
}

/// A proxy that can listen says so and waits, and one that cannot tells why, whole, and returns.
pub proof fn binding_is_reported(bound: Result<(), String>, step: Step)
    requires
        call_ensures(after_bind, (bound,), step),
    ensures
        bound is Ok ==> step.next is Wait && (step.report matches Some(event) && event is Started),
        bound matches Err(e) ==> step.next is Return && (step.report matches Some(
            ProxyEvent::Error(message),
        ) && message@ == "Bind error: "@ + e@),
{
}

/// A proxy that is told to stop says that it has stopped and returns, one that a client connects to
/// serves it without a word, and one that no client can connect to any more returns without a word.
pub proof fn activities_are_followed(activity: Activity, step: Step)
    requires
        call_ensures(after_activity, (activity,), step),
    ensures
        activity is StopSignal ==> step.next is Return && (step.report matches Some(event) && event
            is Stopped),
        activity is Accepted ==> step.next is Serve && step.report is None,
        activity is AcceptFailed ==> step.next is Return && step.report is None,
{
}

/// The first number is zero.
pub proof fn numbers_start_at_zero(
    fresh: RequestCounter,
    counter: &mut RequestCounter,
    id: usize,
)
    requires
        call_ensures(RequestCounter::new, (), fresh),
        *old(counter) == fresh,
        call_ensures(RequestCounter::assign, (counter,), id),
    ensures
        id == 0,
{
}

/// Each number is one more than the one before it, but that zero comes behind the largest one.
pub proof fn numbers_follow_one_another(
    counter: &mut RequestCounter,
    later: &mut RequestCounter,
    id: usize,
    next: usize,
)
    requires
        call_ensures(RequestCounter::assign, (counter,), id),
        *old(later) == *final(counter),
        call_ensures(RequestCounter::assign, (later,), next),
    ensures
        id < usize::MAX ==> next == id + 1,
        id == usize::MAX ==> next == 0,
{
}

} // verus!
