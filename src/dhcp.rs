use vstd::prelude::*;
use vstd::string::StringExecFns;

use crate::text::{decimal_text, push_decimal};

verus! {

/// The DHCP clients that the guest can run, in order of preference.
#[derive(Clone, Copy, Debug, PartialEq, Eq, Structural)]
pub enum DhcpClient {
    Dhcpcd,
    Dhclient,
}

/// Where a probe looks for a client: on the executable search path under its
/// bare name, or at its fixed install location.
#[derive(Clone, Copy, Debug, PartialEq, Eq, Structural)]
pub enum ProbeKind {
    SearchPath,
    FixedPath,
}

/// One probe for a DHCP client.
#[derive(Clone, Copy, Debug, PartialEq, Eq, Structural)]
pub struct DhcpProbe {
    pub client: DhcpClient,
    pub kind: ProbeKind,
}

/// What to do next while looking for a DHCP client.
#[derive(Clone, Copy, Debug, PartialEq, Eq, Structural)]
pub enum DhcpStep {
    /// Make the probe at this position of the table.
    Probe(usize),
    /// Run this client; whatever it does, look no further.
    Run(DhcpClient),
    /// No client was found.
    NotFound,
}

/// How a child process ended.
#[derive(Clone, Copy, Debug, PartialEq, Eq, Structural)]
pub enum ChildOutcome {
    Success,
    ExitCode(i32),
    Signal(i32),
    /// Neither an exit code nor a signal was recorded: the platform broke its
    /// own rules.
    Unknown,
}

/// Why the guest could not bring its network up through DHCP.
#[derive(Clone, Copy, Debug, PartialEq, Eq, Structural)]
pub enum DhcpError {
    NotFound,
    ExitCode { client: DhcpClient, code: i32 },
    Signal { client: DhcpClient, signal: i32 },
    NoStatus { client: DhcpClient },
}

/// The number of probes in the table.
pub const PROBE_COUNT: usize = 4;

/// The probe table, in the order in which the probes are made.
pub open spec fn probe_at(i: int) -> DhcpProbe {
    if i == 0 {
        DhcpProbe { client: DhcpClient::Dhcpcd, kind: ProbeKind::SearchPath }
    } else if i == 1 {
        DhcpProbe { client: DhcpClient::Dhcpcd, kind: ProbeKind::FixedPath }
    } else if i == 2 {
        DhcpProbe { client: DhcpClient::Dhclient, kind: ProbeKind::SearchPath }
    } else {
        DhcpProbe { client: DhcpClient::Dhclient, kind: ProbeKind::FixedPath }
    }
}

/// The step after probe `i` found its client (`found`) or did not.
pub open spec fn step_after(i: int, found: bool) -> DhcpStep {
    if found {
        DhcpStep::Run(probe_at(i).client)
    } else if i + 1 < PROBE_COUNT {
        DhcpStep::Probe((i + 1) as usize)
    } else {
        DhcpStep::NotFound
    }
}

/// Runs the search from probe `i`, where `found[j]` is what probe `j` would
/// answer: the step it ends on, and how many probes it made.
pub open spec fn search_from(found: Seq<bool>, i: nat) -> (DhcpStep, nat)
    decreases PROBE_COUNT - i,
{
    if i >= PROBE_COUNT {
        (DhcpStep::NotFound, 0)
    } else {
        match step_after(i as int, found[i as int]) {
            DhcpStep::Probe(j) => {
                let (s, n) = search_from(found, j as nat);
                (s, n + 1)
            },
            s => (s, 1),
        }
    }
}

/// The outcome of a child process from what the platform recorded.
pub open spec fn outcome_of(success: bool, code: Option<i32>, signal: Option<i32>) -> ChildOutcome {
    if success {
        ChildOutcome::Success
    } else if code is Some {
        ChildOutcome::ExitCode(code.unwrap())
    } else if signal is Some {
        ChildOutcome::Signal(signal.unwrap())
    } else {
        ChildOutcome::Unknown
    }
}

pub open spec fn client_name(c: DhcpClient) -> Seq<char> {
    match c {
        DhcpClient::Dhcpcd => "dhcpcd"@,
        DhcpClient::Dhclient => "dhclient"@,
    }
}

/// A signed number in decimal.
pub open spec fn signed_text(x: int) -> Seq<char> {
    if x < 0 {
        seq!['-'] + decimal_text((-x) as nat)
    } else {
        decimal_text(x as nat)
    }
}

pub open spec fn message_of(e: DhcpError) -> Seq<char> {
    match e {
        DhcpError::NotFound => "could not find required `dhcpcd` or `dhclient`"@,
        DhcpError::ExitCode { client, code } => "`"@ + client_name(client)
            + "` process exited with status code: "@ + signed_text(code as int),
        DhcpError::Signal { client, signal } => "`"@ + client_name(client)
            + "` process terminated by signal: "@ + signed_text(signal as int),
        DhcpError::NoStatus { client } => "`"@ + client_name(client)
            + "` process ended with neither a status code nor a signal"@,
    }
}

/// The probe at position `i` of the table.
pub fn probe(i: usize) -> (r: DhcpProbe)
    requires
        i < PROBE_COUNT,
    ensures
        r == probe_at(i as int),
{
    if i == 0 {
        DhcpProbe { client: DhcpClient::Dhcpcd, kind: ProbeKind::SearchPath }
    } else if i == 1 {
        DhcpProbe { client: DhcpClient::Dhcpcd, kind: ProbeKind::FixedPath }
    } else if i == 2 {
        DhcpProbe { client: DhcpClient::Dhclient, kind: ProbeKind::SearchPath }
    } else {
        DhcpProbe { client: DhcpClient::Dhclient, kind: ProbeKind::FixedPath }
    }
}

impl DhcpProbe {
    /// What the probe looks for: a bare name to find on the search path, or an
    /// absolute path.
    pub fn target(&self) -> (r: &'static str)
        ensures
            *self == (DhcpProbe { client: DhcpClient::Dhcpcd, kind: ProbeKind::SearchPath })
                ==> r == "dhcpcd",
            *self == (DhcpProbe { client: DhcpClient::Dhcpcd, kind: ProbeKind::FixedPath })
                ==> r == "/sbin/dhcpcd",
            *self == (DhcpProbe { client: DhcpClient::Dhclient, kind: ProbeKind::SearchPath })
                ==> r == "dhclient",
            *self == (DhcpProbe { client: DhcpClient::Dhclient, kind: ProbeKind::FixedPath })
                ==> r == "/sbin/dhclient",
    {
        match (self.client, self.kind) {
            (DhcpClient::Dhcpcd, ProbeKind::SearchPath) => "dhcpcd",
            (DhcpClient::Dhcpcd, ProbeKind::FixedPath) => "/sbin/dhcpcd",
            (DhcpClient::Dhclient, ProbeKind::SearchPath) => "dhclient",
            (DhcpClient::Dhclient, ProbeKind::FixedPath) => "/sbin/dhclient",
        }
    }
}

/// The first step of the search for a DHCP client.
pub fn first_step() -> (r: DhcpStep)
    ensures
        r == DhcpStep::Probe(0),
{
    DhcpStep::Probe(0)
}

/// The step after probe `i` answered: run the client it found, or make the next
/// probe, or give up after the last one.
pub fn next_step(i: usize, found: bool) -> (r: DhcpStep)
    requires
        i < PROBE_COUNT,
    ensures
        r == step_after(i as int, found),
{
    if found {
        DhcpStep::Run(probe(i).client)
    } else if i + 1 < PROBE_COUNT {
        DhcpStep::Probe(i + 1)
    } else {
        DhcpStep::NotFound
    }
}

impl DhcpClient {
    /// The arguments the client is run with: `dhcpcd` is bound to `eth0` and kept
    /// from running its resolver hook; `dhclient` takes none.
    pub fn args(&self) -> (r: Vec<&'static str>)
        ensures
            *self == DhcpClient::Dhcpcd ==> r@ == seq!["-M", "eth0", "-e", "resolvconf=does-not-exist"],
            *self == DhcpClient::Dhclient ==> r@.len() == 0,
    {
        match self {
            DhcpClient::Dhcpcd => vec!["-M", "eth0", "-e", "resolvconf=does-not-exist"],
            DhcpClient::Dhclient => Vec::new(),
        }
    }
}

/// Classifies how a child process ended from what the platform recorded.
pub fn classify_exit(success: bool, code: Option<i32>, signal: Option<i32>) -> (r: ChildOutcome)
    ensures
        r == outcome_of(success, code, signal),
{
    if success {
        ChildOutcome::Success
    } else if let Some(c) = code {
        ChildOutcome::ExitCode(c)
    } else if let Some(s) = signal {
        ChildOutcome::Signal(s)
    } else {
        ChildOutcome::Unknown
    }
}

/// The result of running `client`: success only where it succeeded; every other
/// outcome is an error that names the client and carries the code or signal.
pub fn check_outcome(client: DhcpClient, outcome: ChildOutcome) -> (r: Result<(), DhcpError>)
    ensures
        r == match outcome {
            ChildOutcome::Success => Ok(()),
            ChildOutcome::ExitCode(code) => Err(DhcpError::ExitCode { client, code }),
            ChildOutcome::Signal(signal) => Err(DhcpError::Signal { client, signal }),
            ChildOutcome::Unknown => Err(DhcpError::NoStatus { client }),
        },
{
    match outcome {
        ChildOutcome::Success => Ok(()),
        ChildOutcome::ExitCode(code) => Err(DhcpError::ExitCode { client, code }),
        ChildOutcome::Signal(signal) => Err(DhcpError::Signal { client, signal }),
        ChildOutcome::Unknown => Err(DhcpError::NoStatus { client }),
    }
}

fn push_signed(out: &mut String, x: i32)
    ensures
        final(out)@ == old(out)@ + signed_text(x as int),
{
    if x < 0 {
        out.append("-");
        proof {
            reveal_strlit("-");
        }
        let m: u32 = (-(x as i64)) as u32;
        push_decimal(out, m);
        assert(out@ =~= old(out)@ + signed_text(x as int));
    } else {
        push_decimal(out, x as u32);
    }
}

impl DhcpClient {
    /// The client's program name.
    pub fn name(&self) -> (r: &'static str)
        ensures
            r@ == client_name(*self),
    {
        match self {
            DhcpClient::Dhcpcd => "dhcpcd",
            DhcpClient::Dhclient => "dhclient",
        }
    }
}

impl DhcpError {
    /// The error in words, with the client's name and the code or signal.
    pub fn message(&self) -> (r: String)
        ensures
            r@ == message_of(*self),
    {
        match *self {
            DhcpError::NotFound => String::from_str("could not find required `dhcpcd` or `dhclient`"),
            DhcpError::ExitCode { client, code } => {
                let mut s = String::from_str("`");
                s.append(client.name());
                s.append("` process exited with status code: ");
                push_signed(&mut s, code);
                s
            },
            DhcpError::Signal { client, signal } => {
                let mut s = String::from_str("`");
                s.append(client.name());
                s.append("` process terminated by signal: ");
                push_signed(&mut s, signal);
                s
            },
            DhcpError::NoStatus { client } => {
                let mut s = String::from_str("`");
                s.append(client.name());
                s.append("` process ended with neither a status code nor a signal");
                s
            },
        }
    }
}

proof fn lemma_search_reaches(found: Seq<bool>, i: nat, k: nat)
    requires
        found.len() == PROBE_COUNT,
        i <= k < PROBE_COUNT,
        found[k as int],
        forall|j: int| i <= j < k ==> !found[j],
    ensures
        search_from(found, i) == (DhcpStep::Run(probe_at(k as int).client), (k + 1 - i) as nat),
    decreases k - i,
{
    if i < k {
        lemma_search_reaches(found, i + 1, k);
    }
}

proof fn lemma_search_exhausts(found: Seq<bool>, i: nat)
    requires
        found.len() == PROBE_COUNT,
        i <= PROBE_COUNT,
        forall|j: int| i <= j < PROBE_COUNT ==> !found[j],
    ensures
        search_from(found, i) == (DhcpStep::NotFound, if i < PROBE_COUNT {
            (PROBE_COUNT - i) as nat
        } else {
            0
        }),
    decreases PROBE_COUNT - i,
{
    if i + 1 < PROBE_COUNT {
        lemma_search_exhausts(found, i + 1);
    }
}

/// The search is the ordered table walked from its start: where probe `k` is the
/// first that finds its client, the search runs that client after exactly `k + 1`
/// probes and never probes further; where no probe finds one, it makes all the
/// probes and reports that none was found.
pub proof fn lemma_search_takes_first_found(found: Seq<bool>)
    requires
        found.len() == PROBE_COUNT,
    ensures
        forall|k: int|
            0 <= k < PROBE_COUNT && #[trigger] found[k] && (forall|j: int| 0 <= j < k ==> !found[j])
                ==> search_from(found, 0) == (DhcpStep::Run(probe_at(k).client), (k + 1) as nat),
        (forall|j: int| 0 <= j < PROBE_COUNT ==> !found[j]) ==> search_from(found, 0) == (
        DhcpStep::NotFound, PROBE_COUNT as nat),
{
    assert forall|k: int|
        0 <= k < PROBE_COUNT && #[trigger] found[k] && (forall|j: int| 0 <= j < k ==> !found[j])
            implies search_from(found, 0) == (DhcpStep::Run(probe_at(k).client), (k + 1) as nat) by {
        lemma_search_reaches(found, 0, k as nat);
    }
    if forall|j: int| 0 <= j < PROBE_COUNT ==> !found[j] {
        lemma_search_exhausts(found, 0);
    }
}

/// A client that exited with a code and one that a signal ended are reported in
/// different words, whatever the code and the signal.
pub proof fn lemma_code_and_signal_messages_differ(client: DhcpClient, code: i32, signal: i32)
    ensures
        message_of(DhcpError::ExitCode { client, code }) != message_of(
            DhcpError::Signal { client, signal },
        ),
{
    reveal_strlit("`");
    reveal_strlit("` process exited with status code: ");
    reveal_strlit("` process terminated by signal: ");
    let m1 = message_of(DhcpError::ExitCode { client, code });
    let m2 = message_of(DhcpError::Signal { client, signal });
    let n = client_name(client).len() as int;
    assert(m1[1 + n + 10] == 'e');
    assert(m2[1 + n + 10] == 't');
}

} // verus!
