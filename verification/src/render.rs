//! Deterministic rendering of a snapshot into the fixed-layout status block.
//!
//! The block is specified line by line: `render_lines` is the exact sequence
//! of lines and `render_spec` their newline join, so the text the builder
//! returns is pinned completely by the snapshot and the interval annotation.

use vstd::prelude::*;
use vstd::string::StringExecFns;
use crate::decimal::{dec_rep, pad_left, tenths_rep, fmt_tenths, left_padded, u64_dec};
use crate::snapshot::{
    calc_gb_tenths, calc_percent_tenths, gb_tenths, percent_tenths, DiskEntry, SystemSnapshot,
};

verus! {

/// The interval annotation appended to the header, empty when none is given.
pub open spec fn interval_note(interval: Option<u64>) -> Seq<char> {
    match interval {
        Some(n) => " (updates every "@ + dec_rep(n as nat) + "s)"@,
        None => Seq::empty(),
    }
}

/// The header line carrying the status signature.
pub open spec fn header_line(interval: Option<u64>) -> Seq<char> {
    "System Status"@ + interval_note(interval)
}

/// The capture-time line.
pub open spec fn updated_line(ts: Seq<char>) -> Seq<char> {
    "Last Updated: "@ + ts
}

/// The uptime line, split into days, hours and minutes.
pub open spec fn uptime_line(secs: u64) -> Seq<char> {
    "System Uptime: "@ + dec_rep((secs / 86400) as nat) + "d "@ + dec_rep(
        (secs % 86400 / 3600) as nat,
    ) + "h "@ + dec_rep((secs % 3600 / 60) as nat) + "m"@
}

/// The memory line: percentage plus absolute figures.
pub open spec fn ram_line(used: u64, total: u64) -> Seq<char>
    recommends
        0 < total,
{
    "RAM Usage:  "@ + tenths_rep(percent_tenths(used as nat, total as nat)) + "% ("@ + dec_rep(
        used as nat,
    ) + " MiB / "@ + dec_rep(total as nat) + " MiB)"@
}

/// The average-CPU line.
pub open spec fn cpu_line(avg_tenths: u64, cores: nat) -> Seq<char> {
    "CPU Usage:  "@ + tenths_rep(avg_tenths as nat) + "% average over "@ + dec_rep(cores)
        + " cores"@
}

/// The temperature line, `N/A` when no sensor reports.
pub open spec fn temp_line(t: Option<u64>) -> Seq<char> {
    "CPU Temp:   "@ + (match t {
        Some(x) => tenths_rep(x as nat) + "°C"@,
        None => "N/A"@,
    })
}

/// One per-core load line, with the core index and figure aligned.
pub open spec fn core_line(idx: nat, tenths: u64) -> Seq<char> {
    "Core "@ + pad_left(dec_rep(idx), 2) + ": "@ + pad_left(tenths_rep(tenths as nat), 5) + "%"@
}

/// One disk usage line.
pub open spec fn disk_line(d: DiskEntry) -> Seq<char>
    recommends
        0 < d.total_bytes,
{
    "- "@ + d.name@ + " ("@ + d.mount@ + ") = "@ + tenths_rep(gb_tenths(d.used_bytes as nat))
        + " GB / "@ + tenths_rep(gb_tenths(d.total_bytes as nat)) + " GB ("@ + tenths_rep(
        percent_tenths(d.used_bytes as nat, d.total_bytes as nat),
    ) + "%)"@
}

/// Builds the header line.
pub fn header_line_exec(interval: Option<u64>) -> (r: String)
    ensures
        r@ == header_line(interval),
{
    let mut r = "System Status".to_owned();
    match interval {
        Some(n) => {
            r.append(" (updates every ");
            r.append(u64_dec(n).as_str());
            r.append("s)");
        },
        None => {},
    }
    proof {
        assert(r@ =~= header_line(interval));
    }
    r
}

/// Builds the capture-time line.
pub fn updated_line_exec(ts: &str) -> (r: String)
    ensures
        r@ == updated_line(ts@),
{
    let mut r = "Last Updated: ".to_owned();
    r.append(ts);
    r
}

/// Builds the uptime line.
pub fn uptime_line_exec(secs: u64) -> (r: String)
    ensures
        r@ == uptime_line(secs),
{
    let mut r = "System Uptime: ".to_owned();
    r.append(u64_dec(secs / 86400).as_str());
    r.append("d ");
    r.append(u64_dec(secs % 86400 / 3600).as_str());
    r.append("h ");
    r.append(u64_dec(secs % 3600 / 60).as_str());
    r.append("m");
    proof {
        assert(r@ =~= uptime_line(secs));
    }
    r
}

/// Builds the memory line.
pub fn ram_line_exec(used: u64, total: u64) -> (r: String)
    requires
        0 < total,
        used <= total,
    ensures
        r@ == ram_line(used, total),
{
    let mut r = "RAM Usage:  ".to_owned();
    r.append(fmt_tenths(calc_percent_tenths(used, total)).as_str());
    r.append("% (");
    r.append(u64_dec(used).as_str());
    r.append(" MiB / ");
    r.append(u64_dec(total).as_str());
    r.append(" MiB)");
    proof {
        assert(r@ =~= ram_line(used, total));
    }
    r
}

/// Builds the average-CPU line.
pub fn cpu_line_exec(avg_tenths: u64, cores: usize) -> (r: String)
    ensures
        r@ == cpu_line(avg_tenths, cores as nat),
{
    let mut r = "CPU Usage:  ".to_owned();
    r.append(fmt_tenths(avg_tenths).as_str());
    r.append("% average over ");
    r.append(u64_dec(cores as u64).as_str());
    r.append(" cores");
    proof {
        assert(r@ =~= cpu_line(avg_tenths, cores as nat));
    }
    r
}

/// Builds the temperature line.
pub fn temp_line_exec(t: Option<u64>) -> (r: String)
    ensures
        r@ == temp_line(t),
{
    let mut r = "CPU Temp:   ".to_owned();
    match t {
        Some(x) => {
            r.append(fmt_tenths(x).as_str());
            r.append("°C");
        },
        None => {
            r.append("N/A");
        },
    }
    proof {
        assert(r@ =~= temp_line(t));
    }
    r
}

/// Builds one per-core load line.
pub fn core_line_exec(idx: usize, tenths: u64) -> (r: String)
    ensures
        r@ == core_line(idx as nat, tenths),
{
    let mut r = "Core ".to_owned();
    r.append(left_padded(u64_dec(idx as u64), 2).as_str());
    r.append(": ");
    r.append(left_padded(fmt_tenths(tenths), 5).as_str());
    r.append("%");
    proof {
        assert(r@ =~= core_line(idx as nat, tenths));
    }
    r
}

/// Builds one disk usage line.
pub fn disk_line_exec(d: &DiskEntry) -> (r: String)
    requires
        0 < d.total_bytes,
        d.used_bytes <= d.total_bytes,
    ensures
        r@ == disk_line(*d),
{
    let mut r = "- ".to_owned();
    r.append(d.name.as_str());
    r.append(" (");
    r.append(d.mount.as_str());
    r.append(") = ");
    r.append(fmt_tenths(calc_gb_tenths(d.used_bytes)).as_str());
    r.append(" GB / ");
    r.append(fmt_tenths(calc_gb_tenths(d.total_bytes)).as_str());
    r.append(" GB (");
    r.append(fmt_tenths(calc_percent_tenths(d.used_bytes, d.total_bytes)).as_str());
    r.append("%)");
    proof {
        assert(r@ =~= disk_line(*d));
    }
    r
}

/// The views of a list of built lines.
pub open spec fn views(ls: Seq<String>) -> Seq<Seq<char>> {
    ls.map_values(|l: String| l@)
}

/// Per-core load lines, in core order.
pub open spec fn core_lines(cs: Seq<u64>) -> Seq<Seq<char>> {
    Seq::new(cs.len(), |i: int| core_line(i as nat, cs[i]))
}

/// The disks that are rendered: exactly those with nonzero capacity, in
/// listing order.
pub open spec fn shown_disks(ds: Seq<DiskEntry>) -> Seq<DiskEntry>
    decreases ds.len(),
{
    if ds.len() == 0 {
        Seq::empty()
    } else {
        shown_disks(ds.drop_last()) + (if ds.last().total_bytes > 0 {
            seq![ds.last()]
        } else {
            Seq::empty()
        })
    }
}

/// Disk usage lines for the shown disks, in listing order.
pub open spec fn disk_lines(ds: Seq<DiskEntry>) -> Seq<Seq<char>> {
    shown_disks(ds).map_values(|d: DiskEntry| disk_line(d))
}

/// A block of lines as it stands in the joined text: an empty block still
/// occupies one empty line.
pub open spec fn block(ls: Seq<Seq<char>>) -> Seq<Seq<char>> {
    if ls.len() == 0 {
        seq![Seq::<char>::empty()]
    } else {
        ls
    }
}

/// The fixed opening lines of the block, through the blank line after the
/// temperature line.
pub open spec fn head_lines(s: SystemSnapshot, interval: Option<u64>) -> Seq<Seq<char>> {
    seq![
        "```"@,
        header_line(interval),
        Seq::<char>::empty(),
        updated_line(s.timestamp@),
        uptime_line(s.uptime_secs),
        Seq::<char>::empty(),
        ram_line(s.ram_used, s.ram_total),
        cpu_line(s.cpu_avg_tenths, s.core_tenths@.len()),
        temp_line(s.cpu_temp_tenths),
        Seq::<char>::empty(),
    ]
}

/// Every line of the rendered block, in order.
pub open spec fn render_lines(s: SystemSnapshot, interval: Option<u64>) -> Seq<Seq<char>> {
    head_lines(s, interval) + block(core_lines(s.core_tenths@)) + seq![
        Seq::<char>::empty(),
        "Disks:"@,
    ] + block(disk_lines(s.disks@)) + seq!["```"@]
}

/// Lines joined with single newlines.
pub open spec fn join_lines(ls: Seq<Seq<char>>) -> Seq<char>
    decreases ls.len(),
{
    if ls.len() == 0 {
        Seq::empty()
    } else if ls.len() == 1 {
        ls[0]
    } else {
        join_lines(ls.drop_last()) + seq!['\n'] + ls.last()
    }
}

/// The full rendered status block.
pub open spec fn render_spec(s: SystemSnapshot, interval: Option<u64>) -> Seq<char> {
    join_lines(render_lines(s, interval))
}

proof fn lemma_join_step(ls: Seq<Seq<char>>, i: int)
    requires
        1 <= i < ls.len(),
    ensures
        join_lines(ls.take(i + 1)) == join_lines(ls.take(i)) + seq!['\n'] + ls[i],
{
    assert(ls.take(i + 1).drop_last() =~= ls.take(i));
    assert(ls.take(i + 1).last() == ls[i]);
}

fn join_lines_exec(lines: &Vec<String>) -> (r: String)
    ensures
        r@ == join_lines(views(lines@)),
{
    let n = lines.len();
    if n == 0 {
        return String::new();
    }
    let mut r = lines[0].clone();
    proof {
        assert(views(lines@).take(1) =~= seq![lines@[0]@]);
    }
    let mut i: usize = 1;
    while i < n
        invariant
            1 <= i <= n,
            n == lines@.len(),
            r@ == join_lines(views(lines@).take(i as int)),
        decreases n - i,
    {
        r.append("\n");
        r.append(lines[i].as_str());
        proof {
            reveal_strlit("\n");
            assert("\n"@ =~= seq!['\n']);
            lemma_join_step(views(lines@), i as int);
        }
        i = i + 1;
    }
    proof {
        assert(views(lines@).take(n as int) =~= views(lines@));
    }
    r
}

/// Renders the status block for a snapshot.
///
/// The text is a function of the snapshot and interval alone, so two calls
/// on the same values yield identical text.
pub fn build_status_message(s: &SystemSnapshot, update_interval_secs: Option<u64>) -> (r: String)
    requires
        s.wf(),
    ensures
        r@ == render_spec(*s, update_interval_secs),
{
    let mut lines: Vec<String> = Vec::new();
    lines.push("```".to_owned());
    lines.push(header_line_exec(update_interval_secs));
    lines.push(String::new());
    lines.push(updated_line_exec(s.timestamp.as_str()));
    lines.push(uptime_line_exec(s.uptime_secs));
    lines.push(String::new());
    lines.push(ram_line_exec(s.ram_used, s.ram_total));
    lines.push(cpu_line_exec(s.cpu_avg_tenths, s.core_tenths.len()));
    lines.push(temp_line_exec(s.cpu_temp_tenths));
    lines.push(String::new());
    proof {
        assert(views(lines@) =~= head_lines(*s, update_interval_secs));
    }
    let ncores = s.core_tenths.len();
    if ncores == 0 {
        lines.push(String::new());
        proof {
            assert(block(core_lines(s.core_tenths@)) =~= seq![Seq::<char>::empty()]);
            assert(views(lines@) =~= head_lines(*s, update_interval_secs) + block(
                core_lines(s.core_tenths@),
            ));
        }
    } else {
        let mut i: usize = 0;
        while i < ncores
            invariant
                i <= ncores,
                ncores == s.core_tenths@.len(),
                views(lines@) == head_lines(*s, update_interval_secs) + core_lines(
                    s.core_tenths@.take(i as int),
                ),
            decreases ncores - i,
        {
            let ghost lines_pre = lines@;
            let l = core_line_exec(i, s.core_tenths[i]);
            let ghost lv = l@;
            lines.push(l);
            proof {
                assert(lines@ == lines_pre.push(lines@.last()));
                assert(views(lines@) =~= views(lines_pre).push(lv));
                assert(core_lines(s.core_tenths@.take(i as int + 1)) =~= core_lines(
                    s.core_tenths@.take(i as int),
                ).push(core_line(i as nat, s.core_tenths@[i as int])));
                assert(views(lines@) =~= head_lines(*s, update_interval_secs) + core_lines(
                    s.core_tenths@.take(i as int + 1),
                ));
            }
            i = i + 1;
        }
        proof {
            assert(s.core_tenths@.take(ncores as int) =~= s.core_tenths@);
            assert(views(lines@) =~= head_lines(*s, update_interval_secs) + block(
                core_lines(s.core_tenths@),
            ));
        }
    }
    lines.push(String::new());
    lines.push("Disks:".to_owned());
    proof {
        assert(views(lines@) =~= head_lines(*s, update_interval_secs) + block(
            core_lines(s.core_tenths@),
        ) + seq![Seq::<char>::empty(), "Disks:"@]);
    }
    let base_len = lines.len();
    let ndisks = s.disks.len();
    let mut i: usize = 0;
    while i < ndisks
        invariant
            i <= ndisks,
            ndisks == s.disks@.len(),
            s.wf(),
            base_len == lines@.len() - disk_lines(s.disks@.take(i as int)).len(),
            views(lines@) == head_lines(*s, update_interval_secs) + block(
                core_lines(s.core_tenths@),
            ) + seq![Seq::<char>::empty(), "Disks:"@] + disk_lines(s.disks@.take(i as int)),
        decreases ndisks - i,
    {
        let d = &s.disks[i];
        let ghost lines_pre = lines@;
        let ghost dspec = s.disks@[i as int];
        if d.total_bytes > 0 {
            let l = disk_line_exec(d);
            let ghost lv = l@;
            lines.push(l);
            proof {
                assert(lines@ == lines_pre.push(lines@.last()));
                assert(views(lines@) =~= views(lines_pre).push(lv));
            }
        }
        proof {
            assert(s.disks@.take(i as int + 1).drop_last() =~= s.disks@.take(i as int));
            assert(s.disks@.take(i as int + 1).last() == dspec);
            assert(shown_disks(s.disks@.take(i as int + 1)) =~= if dspec.total_bytes > 0 {
                shown_disks(s.disks@.take(i as int)).push(dspec)
            } else {
                shown_disks(s.disks@.take(i as int))
            });
            assert(disk_lines(s.disks@.take(i as int + 1)) =~= if dspec.total_bytes > 0 {
                disk_lines(s.disks@.take(i as int)).push(disk_line(dspec))
            } else {
                disk_lines(s.disks@.take(i as int))
            });
            assert(views(lines@) =~= head_lines(*s, update_interval_secs) + block(
                core_lines(s.core_tenths@),
            ) + seq![Seq::<char>::empty(), "Disks:"@] + disk_lines(s.disks@.take(i as int + 1)));
        }
        i = i + 1;
    }
    proof {
        assert(s.disks@.take(ndisks as int) =~= s.disks@);
    }
    if lines.len() == base_len {
        lines.push(String::new());
        proof {
            assert(disk_lines(s.disks@).len() == 0);
            assert(block(disk_lines(s.disks@)) =~= seq![Seq::<char>::empty()]);
        }
    }
    lines.push("```".to_owned());
    proof {
        assert(views(lines@) =~= render_lines(*s, update_interval_secs));
    }
    join_lines_exec(&lines)
}

/// `l` begins with `prefix`.
pub open spec fn starts_with(l: Seq<char>, prefix: Seq<char>) -> bool {
    l.len() >= prefix.len() && l.subrange(0, prefix.len() as int) == prefix
}

/// The three line shapes the counting law speaks of.
#[derive(Clone, Copy, Debug, PartialEq, Eq, Structural)]
pub enum LineKind {
    /// The memory line.
    Ram,
    /// A per-core load line.
    Core,
    /// A disk usage line.
    Disk,
}

/// Whether a line has the given shape, judged by its fixed opening text.
pub open spec fn line_is(k: LineKind, l: Seq<char>) -> bool {
    match k {
        LineKind::Ram => starts_with(l, "RAM Usage:"@),
        LineKind::Core => starts_with(l, "Core "@),
        LineKind::Disk => starts_with(l, "- "@),
    }
}

/// How many lines of `ls` have the given shape.
pub open spec fn count_kind(ls: Seq<Seq<char>>, k: LineKind) -> nat
    decreases ls.len(),
{
    if ls.len() == 0 {
        0
    } else {
        count_kind(ls.drop_last(), k) + (if line_is(k, ls.last()) {
            1nat
        } else {
            0nat
        })
    }
}

proof fn lemma_count_app(a: Seq<Seq<char>>, b: Seq<Seq<char>>, k: LineKind)
    ensures
        count_kind(a + b, k) == count_kind(a, k) + count_kind(b, k),
    decreases b.len(),
{
    if b.len() == 0 {
        assert(a + b =~= a);
    } else {
        lemma_count_app(a, b.drop_last(), k);
        assert((a + b).drop_last() =~= a + b.drop_last());
        assert((a + b).last() == b.last());
    }
}

proof fn lemma_count_all(ls: Seq<Seq<char>>, k: LineKind)
    requires
        forall|i: int| 0 <= i < ls.len() ==> line_is(k, #[trigger] ls[i]),
    ensures
        count_kind(ls, k) == ls.len(),
    decreases ls.len(),
{
    if ls.len() > 0 {
        lemma_count_all(ls.drop_last(), k);
    }
}

proof fn lemma_count_none(ls: Seq<Seq<char>>, k: LineKind)
    requires
        forall|i: int| 0 <= i < ls.len() ==> !line_is(k, #[trigger] ls[i]),
    ensures
        count_kind(ls, k) == 0,
    decreases ls.len(),
{
    if ls.len() > 0 {
        lemma_count_none(ls.drop_last(), k);
    }
}

proof fn lemma_count_one(ls: Seq<Seq<char>>, k: LineKind, w: int)
    requires
        0 <= w < ls.len(),
        line_is(k, ls[w]),
        forall|i: int| 0 <= i < ls.len() && i != w ==> !line_is(k, #[trigger] ls[i]),
    ensures
        count_kind(ls, k) == 1,
    decreases ls.len(),
{
    if w == ls.len() - 1 {
        lemma_count_none(ls.drop_last(), k);
    } else {
        lemma_count_one(ls.drop_last(), k, w);
    }
}

proof fn lemma_prefix_char(l: Seq<char>, p: Seq<char>, j: int)
    requires
        starts_with(l, p),
        0 <= j < p.len(),
    ensures
        l[j] == p[j],
{
    assert(l.subrange(0, p.len() as int)[j] == l[j]);
}

proof fn lemma_kind_empty()
    ensures
        forall|k: LineKind| !line_is(k, Seq::<char>::empty()),
{
    reveal_strlit("RAM Usage:");
    reveal_strlit("Core ");
    reveal_strlit("- ");
    assert forall|k: LineKind| !line_is(k, Seq::<char>::empty()) by {
        assert("RAM Usage:"@.len() == 10);
        assert("Core "@.len() == 5);
        assert("- "@.len() == 2);
    }
}

proof fn lemma_kind_fence()
    ensures
        forall|k: LineKind| !line_is(k, "```"@),
{
    reveal_strlit("```");
    reveal_strlit("RAM Usage:");
    reveal_strlit("Core ");
    reveal_strlit("- ");
    assert forall|k: LineKind| !line_is(k, "```"@) by {
        if line_is(LineKind::Disk, "```"@) {
            lemma_prefix_char("```"@, "- "@, 0);
        }
    }
}

proof fn lemma_kind_disks_header()
    ensures
        forall|k: LineKind| !line_is(k, "Disks:"@),
{
    reveal_strlit("Disks:");
    reveal_strlit("RAM Usage:");
    reveal_strlit("Core ");
    reveal_strlit("- ");
    assert forall|k: LineKind| !line_is(k, "Disks:"@) by {
        if line_is(LineKind::Core, "Disks:"@) {
            lemma_prefix_char("Disks:"@, "Core "@, 0);
        }
        if line_is(LineKind::Disk, "Disks:"@) {
            lemma_prefix_char("Disks:"@, "- "@, 0);
        }
    }
}

proof fn lemma_kind_header(interval: Option<u64>)
    ensures
        forall|k: LineKind| !line_is(k, header_line(interval)),
{
    reveal_strlit("System Status");
    reveal_strlit("RAM Usage:");
    reveal_strlit("Core ");
    reveal_strlit("- ");
    let l = header_line(interval);
    assert(l[0] == 'S');
    assert forall|k: LineKind| !line_is(k, l) by {
        if line_is(LineKind::Ram, l) {
            lemma_prefix_char(l, "RAM Usage:"@, 0);
        }
        if line_is(LineKind::Core, l) {
            lemma_prefix_char(l, "Core "@, 0);
        }
        if line_is(LineKind::Disk, l) {
            lemma_prefix_char(l, "- "@, 0);
        }
    }
}

proof fn lemma_kind_updated(ts: Seq<char>)
    ensures
        forall|k: LineKind| !line_is(k, updated_line(ts)),
{
    reveal_strlit("Last Updated: ");
    reveal_strlit("RAM Usage:");
    reveal_strlit("Core ");
    reveal_strlit("- ");
    let l = updated_line(ts);
    assert(l[0] == 'L');
    assert forall|k: LineKind| !line_is(k, l) by {
        if line_is(LineKind::Ram, l) {
            lemma_prefix_char(l, "RAM Usage:"@, 0);
        }
        if line_is(LineKind::Core, l) {
            lemma_prefix_char(l, "Core "@, 0);
        }
        if line_is(LineKind::Disk, l) {
            lemma_prefix_char(l, "- "@, 0);
        }
    }
}

proof fn lemma_kind_uptime(secs: u64)
    ensures
        forall|k: LineKind| !line_is(k, uptime_line(secs)),
{
    reveal_strlit("System Uptime: ");
    reveal_strlit("RAM Usage:");
    reveal_strlit("Core ");
    reveal_strlit("- ");
    let l = uptime_line(secs);
    assert(l[0] == 'S');
    assert forall|k: LineKind| !line_is(k, l) by {
        if line_is(LineKind::Ram, l) {
            lemma_prefix_char(l, "RAM Usage:"@, 0);
        }
        if line_is(LineKind::Core, l) {
            lemma_prefix_char(l, "Core "@, 0);
        }
        if line_is(LineKind::Disk, l) {
            lemma_prefix_char(l, "- "@, 0);
        }
    }
}

proof fn lemma_kind_ram(used: u64, total: u64)
    ensures
        line_is(LineKind::Ram, ram_line(used, total)),
        !line_is(LineKind::Core, ram_line(used, total)),
        !line_is(LineKind::Disk, ram_line(used, total)),
{
    reveal_strlit("RAM Usage:  ");
    reveal_strlit("RAM Usage:");
    reveal_strlit("Core ");
    reveal_strlit("- ");
    let l = ram_line(used, total);
    assert(l.subrange(0, 10) =~= "RAM Usage:"@);
    assert(l[0] == 'R');
    if line_is(LineKind::Core, l) {
        lemma_prefix_char(l, "Core "@, 0);
    }
    if line_is(LineKind::Disk, l) {
        lemma_prefix_char(l, "- "@, 0);
    }
}

proof fn lemma_kind_cpu(avg_tenths: u64, cores: nat)
    ensures
        forall|k: LineKind| !line_is(k, cpu_line(avg_tenths, cores)),
{
    reveal_strlit("CPU Usage:  ");
    reveal_strlit("RAM Usage:");
    reveal_strlit("Core ");
    reveal_strlit("- ");
    let l = cpu_line(avg_tenths, cores);
    assert(l[0] == 'C');
    assert(l[1] == 'P');
    assert forall|k: LineKind| !line_is(k, l) by {
        if line_is(LineKind::Ram, l) {
            lemma_prefix_char(l, "RAM Usage:"@, 0);
        }
        if line_is(LineKind::Core, l) {
            lemma_prefix_char(l, "Core "@, 1);
        }
        if line_is(LineKind::Disk, l) {
            lemma_prefix_char(l, "- "@, 0);
        }
    }
}

proof fn lemma_kind_temp(t: Option<u64>)
    ensures
        forall|k: LineKind| !line_is(k, temp_line(t)),
{
    reveal_strlit("CPU Temp:   ");
    reveal_strlit("RAM Usage:");
    reveal_strlit("Core ");
    reveal_strlit("- ");
    let l = temp_line(t);
    assert(l[0] == 'C');
    assert(l[1] == 'P');
    assert forall|k: LineKind| !line_is(k, l) by {
        if line_is(LineKind::Ram, l) {
            lemma_prefix_char(l, "RAM Usage:"@, 0);
        }
        if line_is(LineKind::Core, l) {
            lemma_prefix_char(l, "Core "@, 1);
        }
        if line_is(LineKind::Disk, l) {
            lemma_prefix_char(l, "- "@, 0);
        }
    }
}

proof fn lemma_kind_core(idx: nat, tenths: u64)
    ensures
        line_is(LineKind::Core, core_line(idx, tenths)),
        !line_is(LineKind::Ram, core_line(idx, tenths)),
        !line_is(LineKind::Disk, core_line(idx, tenths)),
{
    reveal_strlit("Core ");
    reveal_strlit("RAM Usage:");
    reveal_strlit("- ");
    let l = core_line(idx, tenths);
    assert(l.subrange(0, 5) =~= "Core "@);
    assert(l[0] == 'C');
    if line_is(LineKind::Ram, l) {
        lemma_prefix_char(l, "RAM Usage:"@, 0);
    }
    if line_is(LineKind::Disk, l) {
        lemma_prefix_char(l, "- "@, 0);
    }
}

proof fn lemma_kind_disk(d: DiskEntry)
    ensures
        line_is(LineKind::Disk, disk_line(d)),
        !line_is(LineKind::Ram, disk_line(d)),
        !line_is(LineKind::Core, disk_line(d)),
{
    reveal_strlit("- ");
    reveal_strlit("RAM Usage:");
    reveal_strlit("Core ");
    let l = disk_line(d);
    assert(l.subrange(0, 2) =~= "- "@);
    assert(l[0] == '-');
    if line_is(LineKind::Ram, l) {
        lemma_prefix_char(l, "RAM Usage:"@, 0);
    }
    if line_is(LineKind::Core, l) {
        lemma_prefix_char(l, "Core "@, 0);
    }
}

proof fn lemma_count_core_lines(cs: Seq<u64>)
    ensures
        count_kind(core_lines(cs), LineKind::Core) == cs.len(),
        count_kind(core_lines(cs), LineKind::Ram) == 0,
        count_kind(core_lines(cs), LineKind::Disk) == 0,
{
    assert forall|i: int| 0 <= i < core_lines(cs).len() implies line_is(
        LineKind::Core,
        #[trigger] core_lines(cs)[i],
    ) by {
        lemma_kind_core(i as nat, cs[i]);
    }
    assert forall|i: int| 0 <= i < core_lines(cs).len() implies !line_is(
        LineKind::Ram,
        #[trigger] core_lines(cs)[i],
    ) by {
        lemma_kind_core(i as nat, cs[i]);
    }
    assert forall|i: int| 0 <= i < core_lines(cs).len() implies !line_is(
        LineKind::Disk,
        #[trigger] core_lines(cs)[i],
    ) by {
        lemma_kind_core(i as nat, cs[i]);
    }
    lemma_count_all(core_lines(cs), LineKind::Core);
    lemma_count_none(core_lines(cs), LineKind::Ram);
    lemma_count_none(core_lines(cs), LineKind::Disk);
}

proof fn lemma_count_disk_lines(ds: Seq<DiskEntry>)
    ensures
        count_kind(disk_lines(ds), LineKind::Disk) == shown_disks(ds).len(),
        count_kind(disk_lines(ds), LineKind::Ram) == 0,
        count_kind(disk_lines(ds), LineKind::Core) == 0,
{
    assert forall|i: int| 0 <= i < disk_lines(ds).len() implies line_is(
        LineKind::Disk,
        #[trigger] disk_lines(ds)[i],
    ) && !line_is(LineKind::Ram, disk_lines(ds)[i]) && !line_is(
        LineKind::Core,
        disk_lines(ds)[i],
    ) by {
        lemma_kind_disk(shown_disks(ds)[i]);
    }
    lemma_count_all(disk_lines(ds), LineKind::Disk);
    lemma_count_none(disk_lines(ds), LineKind::Ram);
    lemma_count_none(disk_lines(ds), LineKind::Core);
}

proof fn lemma_count_head(s: SystemSnapshot, interval: Option<u64>)
    ensures
        count_kind(head_lines(s, interval), LineKind::Ram) == 1,
        count_kind(head_lines(s, interval), LineKind::Core) == 0,
        count_kind(head_lines(s, interval), LineKind::Disk) == 0,
{
    lemma_kind_fence();
    lemma_kind_header(interval);
    lemma_kind_empty();
    lemma_kind_updated(s.timestamp@);
    lemma_kind_uptime(s.uptime_secs);
    lemma_kind_ram(s.ram_used, s.ram_total);
    lemma_kind_cpu(s.cpu_avg_tenths, s.core_tenths@.len());
    lemma_kind_temp(s.cpu_temp_tenths);
    let head = head_lines(s, interval);
    assert(head.len() == 10);
    assert(line_is(LineKind::Ram, head[6]));
    assert forall|i: int| 0 <= i < head.len() && i != 6 implies !line_is(
        LineKind::Ram,
        #[trigger] head[i],
    ) by {}
    lemma_count_one(head, LineKind::Ram, 6);
    assert forall|i: int| 0 <= i < head.len() implies !line_is(
        LineKind::Core,
        #[trigger] head[i],
    ) by {}
    lemma_count_none(head, LineKind::Core);
    assert forall|i: int| 0 <= i < head.len() implies !line_is(
        LineKind::Disk,
        #[trigger] head[i],
    ) by {}
    lemma_count_none(head, LineKind::Disk);
}

/// Law: the rendered block holds exactly one memory line, exactly one
/// per-core line for each core, and exactly one disk line for each disk
/// with nonzero capacity.
pub proof fn lemma_render_line_counts(s: SystemSnapshot, interval: Option<u64>)
    ensures
        count_kind(render_lines(s, interval), LineKind::Ram) == 1,
        count_kind(render_lines(s, interval), LineKind::Core) == s.core_tenths@.len(),
        count_kind(render_lines(s, interval), LineKind::Disk) == shown_disks(s.disks@).len(),
{
    let head = head_lines(s, interval);
    let cblock = block(core_lines(s.core_tenths@));
    let mid = seq![Seq::<char>::empty(), "Disks:"@];
    let dblock = block(disk_lines(s.disks@));
    let tail = seq!["```"@];
    lemma_count_head(s, interval);
    lemma_kind_empty();
    lemma_kind_fence();
    lemma_kind_disks_header();
    lemma_count_core_lines(s.core_tenths@);
    lemma_count_disk_lines(s.disks@);
    if core_lines(s.core_tenths@).len() == 0 {
        assert(cblock =~= seq![Seq::<char>::empty()]);
        assert forall|i: int| 0 <= i < cblock.len() implies forall|k: LineKind|
            !line_is(k, #[trigger] cblock[i]) by {}
        lemma_count_none(cblock, LineKind::Ram);
        lemma_count_none(cblock, LineKind::Core);
        lemma_count_none(cblock, LineKind::Disk);
    }
    if disk_lines(s.disks@).len() == 0 {
        assert(dblock =~= seq![Seq::<char>::empty()]);
        assert forall|i: int| 0 <= i < dblock.len() implies forall|k: LineKind|
            !line_is(k, #[trigger] dblock[i]) by {}
        lemma_count_none(dblock, LineKind::Ram);
        lemma_count_none(dblock, LineKind::Core);
        lemma_count_none(dblock, LineKind::Disk);
        assert(shown_disks(s.disks@).len() == 0);
    }
    assert forall|i: int| 0 <= i < mid.len() implies forall|k: LineKind|
        !line_is(k, #[trigger] mid[i]) by {}
    lemma_count_none(mid, LineKind::Ram);
    lemma_count_none(mid, LineKind::Core);
    lemma_count_none(mid, LineKind::Disk);
    assert forall|i: int| 0 <= i < tail.len() implies forall|k: LineKind|
        !line_is(k, #[trigger] tail[i]) by {}
    lemma_count_none(tail, LineKind::Ram);
    lemma_count_none(tail, LineKind::Core);
    lemma_count_none(tail, LineKind::Disk);
    lemma_count_concat5(head, cblock, mid, dblock, tail, LineKind::Ram);
    lemma_count_concat5(head, cblock, mid, dblock, tail, LineKind::Core);
    lemma_count_concat5(head, cblock, mid, dblock, tail, LineKind::Disk);
}

proof fn lemma_count_concat5(
    a: Seq<Seq<char>>,
    b: Seq<Seq<char>>,
    c: Seq<Seq<char>>,
    d: Seq<Seq<char>>,
    e: Seq<Seq<char>>,
    k: LineKind,
)
    ensures
        count_kind(a + b + c + d + e, k) == count_kind(a, k) + count_kind(b, k) + count_kind(c, k)
            + count_kind(d, k) + count_kind(e, k),
{
    lemma_count_app(a, b, k);
    lemma_count_app(a + b, c, k);
    lemma_count_app(a + b + c, d, k);
    lemma_count_app(a + b + c + d, e, k);
}

/// Law: rendering is deterministic — the text is a function of the snapshot
/// and the interval annotation alone, so two renderings of the same values
/// are identical.
pub proof fn lemma_render_deterministic(
    s: SystemSnapshot,
    interval: Option<u64>,
    r1: Seq<char>,
    r2: Seq<char>,
)
    requires
        r1 == render_spec(s, interval),
        r2 == render_spec(s, interval),
    ensures
        r1 == r2,
{
}

/// Law: a disk with zero capacity is omitted from the rendered listing
/// entirely, and every disk with nonzero capacity appears in it.
pub proof fn lemma_zero_capacity_disks_omitted(ds: Seq<DiskEntry>)
    ensures
        forall|j: int|
            0 <= j < shown_disks(ds).len() ==> (#[trigger] shown_disks(ds)[j]).total_bytes > 0,
        forall|i: int|
            0 <= i < ds.len() && (#[trigger] ds[i]).total_bytes > 0 ==> shown_disks(ds).contains(
                ds[i],
            ),
    decreases ds.len(),
{
    if ds.len() > 0 {
        lemma_zero_capacity_disks_omitted(ds.drop_last());
        assert forall|i: int|
            0 <= i < ds.len() && (#[trigger] ds[i]).total_bytes > 0 implies shown_disks(
            ds,
        ).contains(ds[i]) by {
            if i < ds.len() - 1 {
                assert(ds.drop_last()[i] == ds[i]);
                assert(shown_disks(ds.drop_last()).contains(ds[i]));
                let w = choose|w: int|
                    0 <= w < shown_disks(ds.drop_last()).len() && shown_disks(ds.drop_last())[w]
                        == ds[i];
                assert(shown_disks(ds)[w] == ds[i]);
            } else {
                assert(shown_disks(ds).last() == ds[i]);
            }
        }
    }
}

} // verus!
