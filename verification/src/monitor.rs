//! The DAW monitor: scans a snapshot of the process table against the
//! catalog, first match in catalog order wins, and builds the status
//! snapshot for the match.

use vstd::prelude::*;
use vstd::string::*;

use crate::daw::{name_matches, normalize_process_name, DawConfig, DawStatus, ProcessRecord};
use crate::platform::PlatformQuery;
use crate::project::{extract_project_name, extract_spec};
use crate::text::str_eq;

verus! {

/// The least index at or after `i` of a process matching `c`, if any.
pub open spec fn first_proc_from(c: DawConfig, table: Seq<ProcessRecord>, i: int) -> Option<int>
    decreases table.len() - i,
{
    if i < 0 || i >= table.len() {
        None
    } else if name_matches(c, table[i]) {
        Some(i)
    } else {
        first_proc_from(c, table, i + 1)
    }
}

/// The first match in catalog order at or after entry `ci`: the least
/// catalog index with a matching process, paired with the least index of a
/// process matching that entry.
pub open spec fn first_match_from(
    configs: Seq<DawConfig>,
    table: Seq<ProcessRecord>,
    ci: int,
) -> Option<(int, int)>
    decreases configs.len() - ci,
{
    if ci < 0 || ci >= configs.len() {
        None
    } else {
        match first_proc_from(configs[ci], table, 0) {
            Some(pi) => Some((ci, pi)),
            None => first_match_from(configs, table, ci + 1),
        }
    }
}

/// The first match in catalog order, if any.
pub open spec fn first_match(configs: Seq<DawConfig>, table: Seq<ProcessRecord>) -> Option<
    (int, int),
> {
    first_match_from(configs, table, 0)
}

proof fn lemma_first_proc_found(c: DawConfig, table: Seq<ProcessRecord>, i: int, pi: int)
    requires
        0 <= i <= pi < table.len(),
        name_matches(c, table[pi]),
        forall|k: int| i <= k < pi ==> !name_matches(c, table[k]),
    ensures
        first_proc_from(c, table, i) == Some(pi),
    decreases pi - i,
{
    if i < pi {
        lemma_first_proc_found(c, table, i + 1, pi);
    }
}

proof fn lemma_first_proc_none(c: DawConfig, table: Seq<ProcessRecord>, i: int)
    requires
        0 <= i <= table.len(),
        forall|k: int| i <= k < table.len() ==> !name_matches(c, table[k]),
    ensures
        first_proc_from(c, table, i) is None,
    decreases table.len() - i,
{
    if i < table.len() {
        lemma_first_proc_none(c, table, i + 1);
    }
}

/// A process table in which no process matches any catalog entry yields no
/// match at all: the scan of such a table returns none.
pub proof fn lemma_no_match_scans_none(configs: Seq<DawConfig>, table: Seq<ProcessRecord>)
    requires
        forall|ci: int, pi: int|
            0 <= ci < configs.len() && 0 <= pi < table.len() ==> !name_matches(
                configs[ci],
                table[pi],
            ),
    ensures
        first_match(configs, table) is None,
{
    lemma_no_match_from(configs, table, 0);
}

proof fn lemma_no_match_from(configs: Seq<DawConfig>, table: Seq<ProcessRecord>, ci: int)
    requires
        0 <= ci <= configs.len(),
        forall|i: int, pi: int|
            0 <= i < configs.len() && 0 <= pi < table.len() ==> !name_matches(
                configs[i],
                table[pi],
            ),
    ensures
        first_match_from(configs, table, ci) is None,
    decreases configs.len() - ci,
{
    if ci < configs.len() {
        lemma_first_proc_none(configs[ci], table, 0);
        lemma_no_match_from(configs, table, ci + 1);
    }
}

proof fn lemma_first_match_from_le(
    configs: Seq<DawConfig>,
    table: Seq<ProcessRecord>,
    ci: int,
    i: int,
)
    requires
        0 <= ci <= i < configs.len(),
        first_proc_from(configs[i], table, 0) is Some,
    ensures
        first_match_from(configs, table, ci) matches Some(m) && m.0 <= i,
    decreases i - ci,
{
    match first_proc_from(configs[ci], table, 0) {
        Some(_) => {},
        None => {
            lemma_first_match_from_le(configs, table, ci + 1, i);
        },
    }
}

/// When two catalog entries both match some running process, the selected
/// match is derived only from whichever entry appears first in catalog
/// order: the selected entry index never exceeds the earlier of the two.
pub proof fn lemma_first_match_prefers_catalog_order(
    configs: Seq<DawConfig>,
    table: Seq<ProcessRecord>,
    i: int,
    j: int,
)
    requires
        0 <= i < j < configs.len(),
        exists|p: int| 0 <= p < table.len() && name_matches(configs[i], table[p]),
        exists|p: int| 0 <= p < table.len() && name_matches(configs[j], table[p]),
    ensures
        first_match(configs, table) matches Some(m) && m.0 <= i,
{
    let p = choose|p: int| 0 <= p < table.len() && name_matches(configs[i], table[p]);
    if first_proc_from(configs[i], table, 0) is None {
        lemma_first_proc_from_none_char(configs[i], table, 0);
        assert(!name_matches(configs[i], table[p]));
    }
    lemma_first_match_from_le(configs, table, 0, i);
}

proof fn lemma_first_proc_from_none_char(c: DawConfig, table: Seq<ProcessRecord>, i: int)
    requires
        0 <= i <= table.len(),
        first_proc_from(c, table, i) is None,
    ensures
        forall|k: int| i <= k < table.len() ==> !name_matches(c, table[k]),
    decreases table.len() - i,
{
    if i < table.len() {
        lemma_first_proc_from_none_char(c, table, i + 1);
    }
}

/// How a status snapshot is derived from a matched catalog entry, the
/// matched process, and the platform lookups for it.
pub open spec fn status_matches(
    st: DawStatus,
    config: DawConfig,
    rec: ProcessRecord,
    title: Seq<char>,
    version: Seq<char>,
    hide_project_name: bool,
    core_count: u64,
) -> bool
    recommends
        core_count >= 1,
{
    &&& st.is_running
    &&& st.display_name@ == config.display_text@
    &&& st.project_name@ == (if hide_project_name {
        "(hidden)"@
    } else {
        extract_spec(title, config.title_regex@)
    })
    &&& st.cpu_centi == rec.cpu_centi / core_count
    &&& st.memory_mb == rec.memory_bytes / 1048576
    &&& st.version@ == version
    &&& st.pid == rec.pid
    &&& st.client_id@ == config.client_id@
    &&& st.hide_version == config.hide_version
}

/// How a status snapshot relates to its matched catalog entry and process:
/// it is derived from them and from whatever title and version the platform
/// lookups returned.
pub open spec fn status_from_match(
    st: DawStatus,
    config: DawConfig,
    rec: ProcessRecord,
    hide_project_name: bool,
    core_count: u64,
) -> bool {
    exists|title: Seq<char>, version: Seq<char>|
        status_matches(st, config, rec, title, version, hide_project_name, core_count)
}

/// Build the status snapshot for a matched process. With `hide_project_name`
/// the project name is a fixed redacted marker and the title is never
/// inspected.
pub fn build_status(
    config: &DawConfig,
    rec: &ProcessRecord,
    title: &str,
    version: &str,
    hide_project_name: bool,
    core_count: u64,
) -> (st: DawStatus)
    requires
        core_count >= 1,
    ensures
        status_matches(st, *config, *rec, title@, version@, hide_project_name, core_count),
{
    let project_name = if hide_project_name {
        String::from_str("(hidden)")
    } else {
        extract_project_name(title, config.title_regex.as_str())
    };
    DawStatus {
        is_running: true,
        display_name: config.display_text.clone(),
        project_name,
        cpu_centi: rec.cpu_centi / core_count,
        memory_mb: rec.memory_bytes / 1048576,
        version: String::from_str(version),
        pid: rec.pid,
        client_id: config.client_id.clone(),
        hide_version: config.hide_version,
    }
}

/// Monitors a process-table snapshot for running DAWs.
pub struct DawMonitor {
    /// The catalog, in match-priority order.
    pub configs: Vec<DawConfig>,
    /// Logical core count used to normalize CPU samples; at least one.
    pub core_count: u64,
}

impl DawMonitor {
    /// A monitor never divides by zero: its stored core count is at least
    /// one.
    pub open spec fn wf(&self) -> bool {
        self.core_count >= 1
    }

    /// Create a new monitor over the given catalog; a zero core count is
    /// raised to one.
    pub fn new(configs: Vec<DawConfig>, core_count: u64) -> (r: Self)
        ensures
            r.configs@ == configs@,
            r.core_count == if core_count == 0 {
                1u64
            } else {
                core_count
            },
            r.wf(),
    {
        let cores = if core_count == 0 {
            1
        } else {
            core_count
        };
        DawMonitor { configs, core_count: cores }
    }

    /// Scan a process-table snapshot for the first catalog match, in catalog
    /// order, and build its status snapshot from the platform lookups.
    /// Returns none exactly when no catalog entry matches any process.
    pub fn scan<P: PlatformQuery>(
        &self,
        table: &Vec<ProcessRecord>,
        provider: &P,
        hide_project_name: bool,
    ) -> (r: Option<DawStatus>)
        requires
            self.wf(),
        ensures
            match r {
                None => first_match(self.configs@, table@) is None,
                Some(st) => first_match(self.configs@, table@) matches Some(m)
                    && status_from_match(
                    st,
                    self.configs@[m.0],
                    table@[m.1],
                    hide_project_name,
                    self.core_count,
                ),
            },
    {
        let ncfg = self.configs.len();
        let nproc = table.len();
        let mut ci: usize = 0;
        while ci < ncfg
            invariant
                0 <= ci <= ncfg,
                ncfg == self.configs@.len(),
                nproc == table@.len(),
                self.wf(),
                first_match(self.configs@, table@) == first_match_from(
                    self.configs@,
                    table@,
                    ci as int,
                ),
            decreases ncfg - ci,
        {
            let config = &self.configs[ci];
            let config_norm = normalize_process_name(config.process_name.as_str());
            let mut pi: usize = 0;
            while pi < nproc
                invariant
                    0 <= pi <= nproc,
                    ci < ncfg,
                    ncfg == self.configs@.len(),
                    nproc == table@.len(),
                    self.wf(),
                    config == &self.configs@[ci as int],
                    config_norm@ == crate::daw::normalize_spec(config.process_name@),
                    forall|k: int| 0 <= k < pi ==> !name_matches(self.configs@[ci as int], table@[k]),
                    first_match(self.configs@, table@) == first_match_from(
                        self.configs@,
                        table@,
                        ci as int,
                    ),
                decreases nproc - pi,
            {
                let rec = &table[pi];
                let rec_norm = normalize_process_name(rec.name.as_str());
                if str_eq(rec_norm.as_str(), config_norm.as_str()) {
                    proof {
                        lemma_first_proc_found(self.configs@[ci as int], table@, 0, pi as int);
                    }
                    let title = provider.window_title(rec.pid);
                    let version = provider.process_version(rec.exe_path.as_str());
                    let st = build_status(
                        config,
                        rec,
                        title.as_str(),
                        version.as_str(),
                        hide_project_name,
                        self.core_count,
                    );
                    proof {
                        assert(first_match(self.configs@, table@) == Some(
                            (ci as int, pi as int),
                        ));
                        assert(status_from_match(
                            st,
                            self.configs@[ci as int],
                            table@[pi as int],
                            hide_project_name,
                            self.core_count,
                        )) by {
                            assert(status_matches(
                                st,
                                self.configs@[ci as int],
                                table@[pi as int],
                                title@,
                                version@,
                                hide_project_name,
                                self.core_count,
                            ));
                        }
                    }
                    return Some(st);
                }
                pi = pi + 1;
            }
            proof {
                lemma_first_proc_none(self.configs@[ci as int], table@, 0);
            }
            ci = ci + 1;
        }
        None
    }
}

} // verus!
