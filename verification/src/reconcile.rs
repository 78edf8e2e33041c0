//! The reconciliation step: each tick scans, composes, publishes, and emits
//! change-only notifications. The application shell owns the timer and the
//! notification surface; one call of `tick` is one cycle of the loop, and
//! the channel call runs every tick regardless, so presence self-heals.

use vstd::prelude::*;
use vstd::string::*;

use crate::daw::{cpu_display, ram_display, DawStatus, ProcessRecord};
use crate::discord::{resolved_project, DiscordManager, DiscordPresence, PresencePort};
use crate::monitor::{first_match, status_matches, DawMonitor};
use crate::platform::PlatformQuery;
use crate::settings::AppSettings;
use crate::text::str_eq;

verus! {

/// The published status as the presentation layer sees it.
pub struct StatusUpdate {
    /// Display name of the detected DAW, or "None".
    pub daw_name: String,
    /// Project name, a sentinel, or the redacted marker.
    pub project_name: String,
    /// CPU usage text.
    pub cpu_usage: String,
    /// RAM usage text.
    pub ram_usage: String,
    /// Whether the presence is currently being broadcast.
    pub is_connected: bool,
}

/// The published status when no DAW is detected.
pub fn default_status() -> (r: StatusUpdate)
    ensures
        r.daw_name@ == "None"@,
        r.project_name@ == "None"@,
        r.cpu_usage@ == "Undefined"@,
        r.ram_usage@ == "Undefined"@,
        !r.is_connected,
{
    StatusUpdate {
        daw_name: String::from_str("None"),
        project_name: String::from_str("None"),
        cpu_usage: String::from_str("Undefined"),
        ram_usage: String::from_str("Undefined"),
        is_connected: false,
    }
}

/// Label for an on/off menu entry, e.g. "[ON] Hide Project Name".
pub fn tray_toggle_text(enabled: bool, label: &str) -> (r: String)
    ensures
        enabled ==> r@ == "[ON] "@ + label@,
        !enabled ==> r@ == "[OFF] "@ + label@,
{
    let mut s = if enabled {
        String::from_str("[ON] ")
    } else {
        String::from_str("[OFF] ")
    };
    s.append(label);
    s
}

/// The identity key of a detected DAW, used only to gate notification
/// noise, never to skip the channel call.
pub open spec fn daw_key_spec(st: DawStatus) -> Seq<char> {
    st.display_name@ + "|"@ + st.project_name@ + "|"@ + st.client_id@
}

/// The tray line shown while no DAW is detected.
pub open spec fn idle_message() -> Seq<char> {
    "Open a DAW to begin displaying RPC"@
}

/// Whether a tray line reports a failed connection.
pub open spec fn is_failure_status(s: Seq<char>) -> bool {
    exists|e: Seq<char>| s == "Connection failed: "@ + e
}

/// State the reconciliation loop carries between ticks: what was last
/// published and last announced, to keep notifications change-only.
pub struct LoopState {
    /// Identity key of the DAW seen last tick, if any.
    pub last_daw_key: Option<String>,
    /// Whether the presence was being broadcast after last tick.
    pub last_connected: bool,
    /// The tray status line announced last.
    pub last_tray_status: String,
    /// The status as last published.
    pub published: StatusUpdate,
}

impl LoopState {
    /// The loop state before the first tick.
    pub fn new() -> (r: Self)
        ensures
            r.last_daw_key is None,
            !r.last_connected,
            r.last_tray_status@ == Seq::<char>::empty(),
            !r.published.is_connected,
    {
        LoopState {
            last_daw_key: None,
            last_connected: false,
            last_tray_status: String::new(),
            published: default_status(),
        }
    }
}

/// What one tick reports to the presentation layer.
pub struct TickReport {
    /// The tray status line after this tick.
    pub tray_status: String,
    /// Whether the tray status line changed this tick.
    pub tray_status_changed: bool,
    /// Whether the broadcast went through this tick.
    pub presence_ok: bool,
    /// Whether connected/disconnected flipped this tick.
    pub connection_changed: bool,
    /// Whether the identity of the detected DAW changed this tick.
    pub daw_changed: bool,
}

/// Apply one scan outcome to the loop state and the channel: disconnect and
/// reset on none; on a status, connect to its channel, push the composed
/// presence, and publish the outcome. Notifications are change-only.
pub fn apply_scan_outcome<Q: PresencePort>(
    state: &mut LoopState,
    channel: &mut DiscordManager<Q>,
    scan: Option<DawStatus>,
    settings: &AppSettings,
    now: i64,
) -> (r: TickReport)
    requires
        old(channel).wf(),
    ensures
        final(channel).wf(),
        final(state).last_tray_status@ == r.tray_status@,
        r.tray_status_changed == (old(state).last_tray_status@ != r.tray_status@),
        final(state).last_connected == r.presence_ok,
        final(state).published.is_connected == r.presence_ok,
        r.connection_changed == (old(state).last_connected != r.presence_ok),
        scan is None ==> {
            &&& final(channel).session is None
            &&& final(channel).pushes() == old(channel).pushes()
            &&& final(state).last_daw_key is None
            &&& !r.presence_ok
            &&& final(state).published.daw_name@ == "None"@
            &&& final(state).published.project_name@ == "None"@
            &&& final(state).published.cpu_usage@ == "Undefined"@
            &&& final(state).published.ram_usage@ == "Undefined"@
            &&& r.tray_status@ == idle_message()
            &&& r.daw_changed == (old(state).last_daw_key is Some)
        },
        scan matches Some(st) ==> {
            &&& final(state).last_daw_key matches Some(k) && k@ == daw_key_spec(st)
            &&& r.daw_changed == !(old(state).last_daw_key matches Some(k2) && k2@
                == daw_key_spec(st))
            &&& final(state).published.daw_name@ == st.display_name@
            &&& final(state).published.project_name@ == resolved_project(st, *settings)
            &&& final(state).published.cpu_usage@ == cpu_display(st)
            &&& final(state).published.ram_usage@ == ram_display(st)
            &&& (r.presence_ok ==> final(channel).connected_to(st.client_id@))
            &&& (r.presence_ok ==> r.tray_status@ == "Connected to Discord"@)
            &&& (!r.presence_ok ==> is_failure_status(r.tray_status@))
            &&& (old(channel).connected_to(st.client_id@) ==> final(channel).pushes() > old(
                channel,
            ).pushes())
        },
{
    match scan {
        None => {
            let daw_changed = match &state.last_daw_key {
                Some(_) => true,
                None => false,
            };
            state.last_daw_key = None;
            channel.disconnect();
            state.published = default_status();
            let tray_status = String::from_str("Open a DAW to begin displaying RPC");
            let tray_status_changed = !str_eq(
                state.last_tray_status.as_str(),
                tray_status.as_str(),
            );
            let connection_changed = state.last_connected;
            state.last_connected = false;
            state.last_tray_status = tray_status.clone();
            TickReport {
                tray_status,
                tray_status_changed,
                presence_ok: false,
                connection_changed,
                daw_changed,
            }
        },
        Some(status) => {
            let mut key = status.display_name.clone();
            key.append("|");
            key.append(status.project_name.as_str());
            key.append("|");
            key.append(status.client_id.as_str());
            let daw_changed = match &state.last_daw_key {
                Some(k) => !str_eq(k.as_str(), key.as_str()),
                None => true,
            };
            state.last_daw_key = Some(key);

            let connect_result = channel.connect(status.client_id.as_str(), now);
            let (presence_ok, tray_status): (bool, String) = match connect_result {
                Err(e) => {
                    let mut t = String::from_str("Connection failed: ");
                    t.append(e.as_str());
                    proof {
                        assert(is_failure_status(t@)) by {
                            assert(t@ == "Connection failed: "@ + e@);
                        }
                    }
                    (false, t)
                },
                Ok(()) => {
                    let presence = DiscordPresence::from_daw_status(&status, settings);
                    match channel.update_presence(&presence) {
                        Ok(()) => (true, String::from_str("Connected to Discord")),
                        Err(err) => {
                            let msg = err.message();
                            let mut t = String::from_str("Connection failed: ");
                            t.append(msg.as_str());
                            proof {
                                assert(is_failure_status(t@)) by {
                                    assert(t@ == "Connection failed: "@ + msg@);
                                }
                            }
                            (false, t)
                        },
                    }
                },
            };

            state.published = StatusUpdate {
                daw_name: status.display_name.clone(),
                project_name: if settings.hide_project_name {
                    String::from_str("(hidden)")
                } else {
                    status.project_name.clone()
                },
                cpu_usage: status.cpu_usage_str(),
                ram_usage: status.ram_usage_str(),
                is_connected: presence_ok,
            };
            let connection_changed = state.last_connected != presence_ok;
            state.last_connected = presence_ok;
            let tray_status_changed = !str_eq(
                state.last_tray_status.as_str(),
                tray_status.as_str(),
            );
            state.last_tray_status = tray_status.clone();
            TickReport {
                tray_status,
                tray_status_changed,
                presence_ok,
                connection_changed,
                daw_changed,
            }
        },
    }
}

/// One cycle of the reconciliation loop: scan the table, mirror the outcome
/// onto the channel, publish, and report the change-only notifications.
pub fn tick<P: PlatformQuery, Q: PresencePort>(
    state: &mut LoopState,
    monitor: &DawMonitor,
    channel: &mut DiscordManager<Q>,
    table: &Vec<ProcessRecord>,
    provider: &P,
    settings: &AppSettings,
    now: i64,
) -> (r: TickReport)
    requires
        monitor.wf(),
        old(channel).wf(),
    ensures
        final(channel).wf(),
        final(state).last_tray_status@ == r.tray_status@,
        r.tray_status_changed == (old(state).last_tray_status@ != r.tray_status@),
        final(state).last_connected == r.presence_ok,
        final(state).published.is_connected == r.presence_ok,
        r.connection_changed == (old(state).last_connected != r.presence_ok),
        first_match(monitor.configs@, table@) is None ==> {
            &&& final(channel).session is None
            &&& final(channel).pushes() == old(channel).pushes()
            &&& final(state).last_daw_key is None
            &&& !r.presence_ok
            &&& final(state).published.daw_name@ == "None"@
            &&& final(state).published.project_name@ == "None"@
            &&& r.tray_status@ == idle_message()
            &&& r.daw_changed == (old(state).last_daw_key is Some)
        },
        first_match(monitor.configs@, table@) matches Some(m) ==> {
            &&& final(state).published.daw_name@ == monitor.configs@[m.0].display_text@
            &&& (r.presence_ok ==> final(channel).connected_to(monitor.configs@[m.0].client_id@))
            &&& (r.presence_ok ==> r.tray_status@ == "Connected to Discord"@)
            &&& (!r.presence_ok ==> is_failure_status(r.tray_status@))
        },
{
    let scan = monitor.scan(table, provider, settings.hide_project_name);
    let ghost scan_snapshot = scan;
    let report = apply_scan_outcome(state, channel, scan, settings, now);
    proof {
        match scan_snapshot {
            Some(st) => {
                let m = first_match(monitor.configs@, table@)->Some_0;
                let (t, v) = choose|t: Seq<char>, v: Seq<char>|
                    status_matches(
                        st,
                        monitor.configs@[m.0],
                        table@[m.1],
                        t,
                        v,
                        settings.hide_project_name,
                        monitor.core_count,
                    );
                assert(st.display_name@ == monitor.configs@[m.0].display_text@);
                assert(st.client_id@ == monitor.configs@[m.0].client_id@);
            },
            None => {},
        }
    }
    report
}

} // verus!
