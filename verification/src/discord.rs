//! The presence side: composing the display text from a status snapshot,
//! and the connection state machine that owns the lifecycle of the link to
//! the broadcast peer — idempotent connect, one reconnect per failed push,
//! and best-effort teardown.

use vstd::prelude::*;
use vstd::string::*;

use crate::daw::{cpu_display, ram_display, zero_version, DawStatus};
use crate::settings::AppSettings;
use crate::text::str_eq;

verus! {

/// Version tag the presence carries in its hover text.
pub const APP_VERSION: &'static str = "1.0.0";

/// Rich presence data to display on the remote peer.
pub struct DiscordPresence {
    /// First line: the project being worked on.
    pub details: String,
    /// Second line: version and resource usage, or the fixed usage-hidden
    /// phrase.
    pub state: String,
    /// Key of the large image asset.
    pub large_image: String,
    /// Hover text of the large image.
    pub large_text: String,
}

/// The project name as the presence shows it: the redacted marker when the
/// user hides it, else the extracted name.
pub open spec fn resolved_project(st: DawStatus, settings: AppSettings) -> Seq<char> {
    if settings.hide_project_name {
        "(hidden)"@
    } else {
        st.project_name@
    }
}

/// The details line: the project name, or a fixed phrase when the name is an
/// unknown-project sentinel — the sentinel itself never reaches the peer.
pub open spec fn details_spec(project: Seq<char>) -> Seq<char> {
    if project == "None"@ || project == "Untitled"@ {
        "Opening an untitled project"@
    } else {
        "Opening project: "@ + project
    }
}

/// Whether the state line shows the version: not hidden for this entry and
/// not the zero sentinel.
pub open spec fn shows_version(st: DawStatus) -> bool {
    !st.hide_version && st.version@ != zero_version()
}

/// The state line: a fixed phrase when usage is hidden, else the
/// comma-joined version (when shown), CPU, and RAM parts, with no dangling
/// separators.
pub open spec fn state_spec(st: DawStatus, hide_system_usage: bool) -> Seq<char> {
    if hide_system_usage {
        "Using "@ + st.display_name@
    } else {
        let usage = cpu_display(st) + " CPU, "@ + ram_display(st) + " RAM"@;
        if shows_version(st) {
            "v"@ + st.version@ + ", "@ + usage
        } else {
            usage
        }
    }
}

impl DiscordPresence {
    /// Build the presence from the current DAW status and settings. Pure: no
    /// side effects.
    pub fn from_daw_status(daw_status: &DawStatus, settings: &AppSettings) -> (r: Self)
        ensures
            r.details@ == details_spec(resolved_project(*daw_status, *settings)),
            r.state@ == state_spec(*daw_status, settings.hide_system_usage),
            r.large_image@ == "icon"@,
            r.large_text@ == "DAWPresence v"@ + APP_VERSION@,
    {
        let project = if settings.hide_project_name {
            String::from_str("(hidden)")
        } else {
            daw_status.project_name.clone()
        };

        let details = if str_eq(project.as_str(), "None") || str_eq(project.as_str(), "Untitled") {
            String::from_str("Opening an untitled project")
        } else {
            let mut d = String::from_str("Opening project: ");
            d.append(project.as_str());
            d
        };

        let state = if settings.hide_system_usage {
            let mut s = String::from_str("Using ");
            s.append(daw_status.display_name.as_str());
            s
        } else {
            let cpu = daw_status.cpu_usage_str();
            let ram = daw_status.ram_usage_str();
            let mut usage = cpu;
            usage.append(" CPU, ");
            usage.append(ram.as_str());
            usage.append(" RAM");
            if !daw_status.hide_version && !str_eq(daw_status.version.as_str(), "0.0.0") {
                let mut s = String::from_str("v");
                s.append(daw_status.version.as_str());
                s.append(", ");
                s.append(usage.as_str());
                proof {
                    assert(s@ =~= state_spec(*daw_status, false));
                }
                s
            } else {
                proof {
                    assert(usage@ =~= state_spec(*daw_status, false));
                }
                usage
            }
        };

        let mut large_text = String::from_str("DAWPresence v");
        large_text.append(APP_VERSION);

        DiscordPresence { details, state, large_image: String::from_str("icon"), large_text }
    }
}

/// The peer-facing side of the channel: opening, pushing, clearing and
/// closing are requests to the local IPC service, and any of them may fail.
/// Nothing is promised of their outcomes.
pub trait PresencePort {
    /// Open a fresh connection for `client_id`; on failure no handle is
    /// kept.
    fn open(&mut self, client_id: &str) -> Result<(), String>;

    /// Re-establish the existing connection.
    fn reconnect(&mut self) -> Result<(), String>;

    /// Push the composed activity with the session's fixed start timestamp.
    fn set_activity(&mut self, presence: &DiscordPresence, start_timestamp: i64) -> Result<
        (),
        String,
    >;

    /// Best-effort request to clear the presence shown on the peer.
    fn clear_activity(&mut self) -> Result<(), String>;

    /// Close the connection and drop the handle.
    fn close(&mut self);
}

#[verifier::external_type_specification]
#[verifier::external_body]
pub struct ExDiscordIpcClient(discord_rich_presence::DiscordIpcClient);

/// The live port: exclusively owns the IPC handle to the broadcast peer.
pub struct DiscordIpcPort {
    client: Option<discord_rich_presence::DiscordIpcClient>,
}

impl DiscordIpcPort {
    /// A port with no open handle.
    pub fn new() -> Self {
        DiscordIpcPort { client: None }
    }
}

/// Relies on `DiscordIpcClient::new` and `DiscordIpc::connect`: builds a
/// client for `client_id` and opens its connection; on failure the handle is
/// dropped, never kept half-open.
#[verifier::external_body]
fn ipc_open(
    slot: &mut Option<discord_rich_presence::DiscordIpcClient>,
    client_id: &str,
) -> Result<(), String> {
    let mut client = discord_rich_presence::DiscordIpcClient::new(client_id);
    match discord_rich_presence::DiscordIpc::connect(&mut client) {
        Ok(()) => {
            *slot = Some(client);
            Ok(())
        },
        Err(e) => {
            *slot = None;
            Err(e.to_string())
        },
    }
}

/// Relies on `DiscordIpc::reconnect`: closes and re-opens the existing
/// connection and repeats the handshake.
#[verifier::external_body]
fn ipc_reconnect(slot: &mut Option<discord_rich_presence::DiscordIpcClient>) -> Result<
    (),
    String,
> {
    match slot.as_mut() {
        Some(c) => discord_rich_presence::DiscordIpc::reconnect(c).map_err(|e| e.to_string()),
        None => Err("no open handle".to_string()),
    }
}

/// Relies on `DiscordIpc::set_activity`: sends the composed activity, with
/// the session's start timestamp, to the peer.
#[verifier::external_body]
fn ipc_set_activity(
    slot: &mut Option<discord_rich_presence::DiscordIpcClient>,
    presence: &DiscordPresence,
    start_timestamp: i64,
) -> Result<(), String> {
    let client = match slot.as_mut() {
        Some(c) => c,
        None => return Err("no open handle".to_string()),
    };
    let activity = discord_rich_presence::activity::Activity::new()
        .details(presence.details.as_str())
        .state(presence.state.as_str())
        .assets(
            discord_rich_presence::activity::Assets::new()
                .large_image(presence.large_image.as_str())
                .large_text(presence.large_text.as_str()),
        )
        .timestamps(discord_rich_presence::activity::Timestamps::new().start(start_timestamp));
    discord_rich_presence::DiscordIpc::set_activity(client, activity).map_err(|e| e.to_string())
}

/// Relies on `DiscordIpc::clear_activity`: asks the peer to clear the shown
/// presence.
#[verifier::external_body]
fn ipc_clear_activity(slot: &mut Option<discord_rich_presence::DiscordIpcClient>) -> Result<
    (),
    String,
> {
    match slot.as_mut() {
        Some(c) => discord_rich_presence::DiscordIpc::clear_activity(c).map_err(|e| e.to_string()),
        None => Err("no open handle".to_string()),
    }
}

/// Relies on `DiscordIpc::close`: shuts the connection down, ignoring
/// failures, and drops the handle.
#[verifier::external_body]
fn ipc_close(slot: &mut Option<discord_rich_presence::DiscordIpcClient>) {
    if let Some(c) = slot.as_mut() {
        let _ = discord_rich_presence::DiscordIpc::close(c);
    }
    *slot = None;
}

impl PresencePort for DiscordIpcPort {
    fn open(&mut self, client_id: &str) -> Result<(), String> {
        ipc_open(&mut self.client, client_id)
    }

    fn reconnect(&mut self) -> Result<(), String> {
        ipc_reconnect(&mut self.client)
    }

    fn set_activity(&mut self, presence: &DiscordPresence, start_timestamp: i64) -> Result<
        (),
        String,
    > {
        ipc_set_activity(&mut self.client, presence, start_timestamp)
    }

    fn clear_activity(&mut self) -> Result<(), String> {
        ipc_clear_activity(&mut self.client)
    }

    fn close(&mut self) {
        ipc_close(&mut self.client)
    }
}

/// Why a presence update failed after its single reconnect budget.
pub enum UpdateError {
    /// The push failed and the single reconnect attempt failed too; the
    /// session was torn down. Holds both failure messages.
    ReconnectFailed { set_activity_error: String, reconnect_error: String },
    /// The push failed, the reconnect succeeded, and the retried push failed
    /// as well; the session stays open.
    RetryFailed { set_activity_error: String },
}

impl UpdateError {
    /// The failure text; for a failed reconnect it names both failures.
    pub fn message(&self) -> (r: String)
        ensures
            match self {
                UpdateError::ReconnectFailed { set_activity_error, reconnect_error } => r@
                    == "set_activity failed: "@ + set_activity_error@
                    + "; reconnect also failed: "@ + reconnect_error@,
                UpdateError::RetryFailed { set_activity_error } => r@
                    == "set_activity failed after reconnect: "@ + set_activity_error@,
            },
    {
        match self {
            UpdateError::ReconnectFailed { set_activity_error, reconnect_error } => {
                let mut s = String::from_str("set_activity failed: ");
                s.append(set_activity_error.as_str());
                s.append("; reconnect also failed: ");
                s.append(reconnect_error.as_str());
                s
            },
            UpdateError::RetryFailed { set_activity_error } => {
                let mut s = String::from_str("set_activity failed after reconnect: ");
                s.append(set_activity_error.as_str());
                s
            },
        }
    }
}

/// One kind of request the channel issues against its port, as the ghost
/// history records it.
pub enum PortEvent {
    /// A handle was opened (a successful open request).
    Opened,
    /// A handle was closed.
    Closed,
    /// A push (set-activity) was attempted.
    Pushed,
}

/// How many times `e` occurs in the history `s`.
pub open spec fn count_events(s: Seq<PortEvent>, e: PortEvent) -> int
    decreases s.len(),
{
    if s.len() == 0 {
        0
    } else {
        count_events(s.drop_last(), e) + (if s.last() == e {
            1int
        } else {
            0int
        })
    }
}

proof fn lemma_count_push(s: Seq<PortEvent>, x: PortEvent, e: PortEvent)
    ensures
        count_events(s.push(x), e) == count_events(s, e) + (if x == e {
            1int
        } else {
            0int
        }),
{
    assert(s.push(x).drop_last() =~= s);
    assert(s.push(x).last() == x);
}

/// One open session: the target channel and the timestamp fixed when its
/// connection opened.
pub struct SessionInfo {
    /// The broadcast channel the session is connected to.
    pub client_id: String,
    /// Session start, fixed for the life of this one connection.
    pub session_start: i64,
}

/// The connection state machine. It owns the port exclusively, so the three
/// operations serialize; the ghost history records, in order, every handle
/// open, handle close and push attempt it has issued against the port.
pub struct DiscordManager<P: PresencePort> {
    /// The peer-facing port; every IPC request goes through it.
    pub port: P,
    /// The open session, if any: Connected(client_id, session_start) or
    /// Disconnected.
    pub session: Option<SessionInfo>,
    /// The requests issued so far, in order.
    pub events: Ghost<Seq<PortEvent>>,
}

impl<P: PresencePort> DiscordManager<P> {
    /// How many times a handle was successfully opened.
    pub open spec fn opens(&self) -> int {
        count_events(self.events@, PortEvent::Opened)
    }

    /// How many times a handle was closed.
    pub open spec fn closes(&self) -> int {
        count_events(self.events@, PortEvent::Closed)
    }

    /// How many push attempts were issued.
    pub open spec fn pushes(&self) -> int {
        count_events(self.events@, PortEvent::Pushed)
    }

    /// At most one live connection at a time: the handles opened exceed the
    /// handles closed exactly by one when connected, by zero when not.
    pub open spec fn wf(&self) -> bool {
        self.opens() - self.closes() == (if self.session is Some {
            1int
        } else {
            0int
        })
    }

    /// Whether the manager is connected to the given channel.
    pub open spec fn connected_to(&self, id: Seq<char>) -> bool {
        self.session matches Some(s) && s.client_id@ == id
    }

    /// A new manager over the given port, not connected yet; nothing has
    /// been issued.
    pub fn new(port: P) -> (r: Self)
        ensures
            r.session is None,
            r.events@ == Seq::<PortEvent>::empty(),
            r.wf(),
    {
        DiscordManager { port, session: None, events: Ghost(Seq::empty()) }
    }

    /// Whether a session is currently open.
    pub fn is_connected(&self) -> (r: bool)
        ensures
            r == (self.session is Some),
    {
        match &self.session {
            Some(_) => true,
            None => false,
        }
    }

    /// Connect to the peer for `client_id`. A no-op when already connected
    /// to the same channel: no request is issued at all. A different open
    /// session is torn down — its handle closed exactly once — before the
    /// new one opens with a fresh session start. Failure to open leaves the
    /// state Disconnected.
    pub fn connect(&mut self, client_id: &str, now: i64) -> (r: Result<(), String>)
        requires
            old(self).wf(),
        ensures
            final(self).wf(),
            final(self).pushes() == old(self).pushes(),
            old(self).connected_to(client_id@) ==> r is Ok && *final(self) == *old(self),
            !old(self).connected_to(client_id@) ==> ({
                let teardown: Seq<PortEvent> = if old(self).session is Some {
                    seq![PortEvent::Closed]
                } else {
                    Seq::empty()
                };
                &&& final(self).closes() == old(self).closes() + (if old(self).session is Some {
                    1int
                } else {
                    0int
                })
                &&& (r is Ok ==> {
                    &&& final(self).connected_to(client_id@)
                    &&& final(self).session matches Some(s) && s.session_start == now
                    &&& final(self).opens() == old(self).opens() + 1
                    &&& final(self).events@ == old(self).events@ + teardown + seq![
                        PortEvent::Opened,
                    ]
                })
                &&& (r is Err ==> {
                    &&& final(self).session is None
                    &&& final(self).opens() == old(self).opens()
                    &&& final(self).events@ == old(self).events@ + teardown
                })
            }),
    {
        let same = match &self.session {
            Some(s) => str_eq(s.client_id.as_str(), client_id),
            None => false,
        };
        if same {
            return Ok(());
        }
        let ghost evs0 = self.events@;
        let ghost had_session = self.session is Some;
        if self.is_connected() {
            let _ = self.port.clear_activity();
            self.port.close();
            proof {
                lemma_count_push(self.events@, PortEvent::Closed, PortEvent::Opened);
                lemma_count_push(self.events@, PortEvent::Closed, PortEvent::Closed);
                lemma_count_push(self.events@, PortEvent::Closed, PortEvent::Pushed);
            }
            self.events = Ghost(self.events@.push(PortEvent::Closed));
            self.session = None;
        }
        match self.port.open(client_id) {
            Ok(()) => {
                proof {
                    lemma_count_push(self.events@, PortEvent::Opened, PortEvent::Opened);
                    lemma_count_push(self.events@, PortEvent::Opened, PortEvent::Closed);
                    lemma_count_push(self.events@, PortEvent::Opened, PortEvent::Pushed);
                }
                self.events = Ghost(self.events@.push(PortEvent::Opened));
                self.session = Some(
                    SessionInfo { client_id: String::from_str(client_id), session_start: now },
                );
                proof {
                    if had_session {
                        assert(self.events@ =~= evs0 + seq![PortEvent::Closed] + seq![
                            PortEvent::Opened,
                        ]);
                    } else {
                        assert(self.events@ =~= evs0 + Seq::empty() + seq![PortEvent::Opened]);
                    }
                }
                Ok(())
            },
            Err(e) => {
                self.session = None;
                proof {
                    if had_session {
                        assert(self.events@ =~= evs0 + seq![PortEvent::Closed]);
                    } else {
                        assert(self.events@ =~= evs0 + Seq::empty());
                    }
                }
                Err(e)
            },
        }
    }

    /// Push the presence. A no-op — success, no IPC request at all — when
    /// Disconnected. When Connected, one push attempt; if it fails, exactly
    /// one reconnect: on reconnect success the push is retried once, on
    /// reconnect failure the session is torn down and the combined error
    /// names both failures.
    pub fn update_presence(&mut self, presence: &DiscordPresence) -> (r: Result<(), UpdateError>)
        requires
            old(self).wf(),
        ensures
            final(self).wf(),
            final(self).opens() == old(self).opens(),
            old(self).session is None ==> r is Ok && *final(self) == *old(self),
            old(self).session is Some ==> {
                &&& (r is Ok ==> {
                    &&& final(self).session == old(self).session
                    &&& final(self).closes() == old(self).closes()
                    &&& (final(self).events@ == old(self).events@ + seq![PortEvent::Pushed]
                        || final(self).events@ == old(self).events@ + seq![
                        PortEvent::Pushed,
                        PortEvent::Pushed,
                    ])
                })
                &&& (r matches Err(UpdateError::RetryFailed { .. }) ==> {
                    &&& final(self).session == old(self).session
                    &&& final(self).closes() == old(self).closes()
                    &&& final(self).events@ == old(self).events@ + seq![
                        PortEvent::Pushed,
                        PortEvent::Pushed,
                    ]
                    &&& final(self).pushes() == old(self).pushes() + 2
                })
                &&& (r matches Err(UpdateError::ReconnectFailed { .. }) ==> {
                    &&& final(self).session is None
                    &&& final(self).closes() == old(self).closes() + 1
                    &&& final(self).events@ == old(self).events@ + seq![
                        PortEvent::Pushed,
                        PortEvent::Closed,
                    ]
                    &&& final(self).pushes() == old(self).pushes() + 1
                })
                &&& final(self).pushes() >= old(self).pushes() + 1
            },
    {
        let start = match &self.session {
            Some(s) => s.session_start,
            None => {
                return Ok(());
            },
        };
        let ghost evs0 = self.events@;
        proof {
            lemma_count_push(self.events@, PortEvent::Pushed, PortEvent::Opened);
            lemma_count_push(self.events@, PortEvent::Pushed, PortEvent::Closed);
            lemma_count_push(self.events@, PortEvent::Pushed, PortEvent::Pushed);
        }
        self.events = Ghost(self.events@.push(PortEvent::Pushed));
        proof {
            assert(self.events@ =~= evs0 + seq![PortEvent::Pushed]);
        }
        match self.port.set_activity(presence, start) {
            Ok(()) => Ok(()),
            Err(set_activity_error) => {
                match self.port.reconnect() {
                    Err(reconnect_error) => {
                        self.port.close();
                        proof {
                            lemma_count_push(self.events@, PortEvent::Closed, PortEvent::Opened);
                            lemma_count_push(self.events@, PortEvent::Closed, PortEvent::Closed);
                            lemma_count_push(self.events@, PortEvent::Closed, PortEvent::Pushed);
                        }
                        self.events = Ghost(self.events@.push(PortEvent::Closed));
                        self.session = None;
                        proof {
                            assert(self.events@ =~= evs0 + seq![
                                PortEvent::Pushed,
                                PortEvent::Closed,
                            ]);
                        }
                        Err(UpdateError::ReconnectFailed { set_activity_error, reconnect_error })
                    },
                    Ok(()) => {
                        proof {
                            lemma_count_push(self.events@, PortEvent::Pushed, PortEvent::Opened);
                            lemma_count_push(self.events@, PortEvent::Pushed, PortEvent::Closed);
                            lemma_count_push(self.events@, PortEvent::Pushed, PortEvent::Pushed);
                        }
                        self.events = Ghost(self.events@.push(PortEvent::Pushed));
                        proof {
                            assert(self.events@ =~= evs0 + seq![
                                PortEvent::Pushed,
                                PortEvent::Pushed,
                            ]);
                        }
                        match self.port.set_activity(presence, start) {
                            Ok(()) => Ok(()),
                            Err(e) => Err(UpdateError::RetryFailed { set_activity_error: e }),
                        }
                    },
                }
            },
        }
    }

    /// Disconnect: best-effort clear and close when Connected, then
    /// Disconnected; idempotent when already Disconnected.
    pub fn disconnect(&mut self)
        requires
            old(self).wf(),
        ensures
            final(self).wf(),
            final(self).session is None,
            final(self).opens() == old(self).opens(),
            final(self).pushes() == old(self).pushes(),
            final(self).closes() == old(self).closes() + (if old(self).session is Some {
                1int
            } else {
                0int
            }),
            old(self).session is Some ==> final(self).events@ == old(self).events@ + seq![
                PortEvent::Closed,
            ],
            old(self).session is None ==> *final(self) == *old(self),
    {
        if self.is_connected() {
            let _ = self.port.clear_activity();
            self.port.close();
            proof {
                lemma_count_push(self.events@, PortEvent::Closed, PortEvent::Opened);
                lemma_count_push(self.events@, PortEvent::Closed, PortEvent::Closed);
                lemma_count_push(self.events@, PortEvent::Closed, PortEvent::Pushed);
            }
            let ghost evs0 = self.events@;
            self.events = Ghost(self.events@.push(PortEvent::Closed));
            self.session = None;
            proof {
                assert(self.events@ =~= evs0 + seq![PortEvent::Closed]);
            }
        }
    }

    /// Convenience: mirror a scan outcome onto the channel — disconnect when
    /// no DAW was found, else connect to the status's channel and push its
    /// composed presence.
    pub fn update_from_daw_status(
        &mut self,
        daw_status: Option<&DawStatus>,
        settings: &AppSettings,
        now: i64,
    ) -> (r: Result<(), String>)
        requires
            old(self).wf(),
        ensures
            final(self).wf(),
            daw_status is None ==> final(self).session is None && r is Ok && final(self).pushes()
                == old(self).pushes(),
            daw_status matches Some(st) ==> (r is Ok ==> final(self).connected_to(st.client_id@)),
    {
        match daw_status {
            None => {
                self.disconnect();
                Ok(())
            },
            Some(status) => {
                match self.connect(status.client_id.as_str(), now) {
                    Err(e) => {
                        return Err(e);
                    },
                    Ok(()) => {},
                }
                let presence = DiscordPresence::from_daw_status(status, settings);
                match self.update_presence(&presence) {
                    Err(e) => Err(e.message()),
                    Ok(()) => Ok(()),
                }
            },
        }
    }
}

} // verus!
