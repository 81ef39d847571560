//! Terminal reports on the code assets of a store: modules, cron jobs, indexers, tables and
//! findings.

use crate::finding::{self, Finding, FindingView, Severity};
use crate::investigate_fmt::{self, pad, write_titled_list};
use crate::live_inspector;
use crate::model::{CronScheduleSummary, CronScheduleSummaryView, TableSizeStat, TableSizeStatView};
use crate::number::{self, num};
use crate::report::{self, put, put_all, put_styled, Span, SpanView, Style};
use crate::service_reports::{self, write_note, write_report_heading, BYTES_PER_MB};
use crate::text::{self, chars_of, contains, to_lowercase};
use vstd::prelude::*;
use vstd::string::*;

verus! {

/// How far a module reaches into a store.
#[derive(Debug, Clone, Copy)]
pub struct ModuleFootprint {
    pub plugins_count: u64,
    pub preferences_count: u64,
    pub observers_count: u64,
    pub cron_jobs_count: u64,
    pub db_tables_count: u64,
    pub db_columns_count: u64,
    pub db_indexes_count: u64,
}

/// What is known of an installed module.
#[derive(Debug, Clone)]
pub struct ModuleInfo {
    pub name: String,
    pub is_enabled: bool,
    pub classification: String,
    pub package_name: Option<String>,
    pub version: Option<String>,
    pub path: String,
    /// The modules that it is to be loaded after.
    pub sequence: Vec<String>,
    pub footprint: ModuleFootprint,
}

/// What a [`ModuleInfo`] holds.
#[verifier::ext_equal]
pub struct ModuleInfoView {
    pub name: Seq<char>,
    pub is_enabled: bool,
    pub classification: Seq<char>,
    pub package_name: Option<Seq<char>>,
    pub version: Option<Seq<char>>,
    pub path: Seq<char>,
    pub sequence: Seq<Seq<char>>,
    pub footprint: ModuleFootprint,
}

impl View for ModuleInfo {
    type V = ModuleInfoView;

    open spec fn view(&self) -> ModuleInfoView {
        ModuleInfoView {
            name: self.name@,
            is_enabled: self.is_enabled,
            classification: self.classification@,
            package_name: text::text_opt(self.package_name),
            version: text::text_opt(self.version),
            path: self.path@,
            sequence: text::texts(self.sequence@),
            footprint: self.footprint,
        }
    }
}

/// A scheduled job.
#[derive(Debug, Clone)]
pub struct CronJob {
    pub name: String,
    pub module: String,
    pub schedule: Option<String>,
    pub interval_seconds: Option<u64>,
    pub instance: String,
}

/// What a [`CronJob`] holds.
#[verifier::ext_equal]
pub struct CronJobView {
    pub name: Seq<char>,
    pub module: Seq<char>,
    pub schedule: Option<Seq<char>>,
    pub interval_seconds: Option<u64>,
    pub instance: Seq<char>,
}

impl View for CronJob {
    type V = CronJobView;

    open spec fn view(&self) -> CronJobView {
        CronJobView {
            name: self.name@,
            module: self.module@,
            schedule: text::text_opt(self.schedule),
            interval_seconds: self.interval_seconds,
            instance: self.instance@,
        }
    }
}

/// An indexer.
#[derive(Debug, Clone)]
pub struct Indexer {
    pub id: String,
    pub view_id: String,
    pub title: String,
    pub module: String,
}

/// What a [`Indexer`] holds.
#[verifier::ext_equal]
pub struct IndexerView {
    pub id: Seq<char>,
    pub view_id: Seq<char>,
    pub title: Seq<char>,
    pub module: Seq<char>,
}

impl View for Indexer {
    type V = IndexerView;

    open spec fn view(&self) -> IndexerView {
        IndexerView {
            id: self.id@,
            view_id: self.view_id@,
            title: self.title@,
            module: self.module@,
        }
    }
}

/// The health of a store in numbers.
#[derive(Debug, Clone, Copy)]
pub struct HealthFigures {
    pub overall: u64,
    pub critical_count: u64,
    pub warning_count: u64,
    pub info_count: u64,
}

// Modules

/// Whether a module passes a filter, whatever the case of the letters.
pub open spec fn passes(name: Seq<char>, filter: Option<Seq<char>>) -> bool {
    match filter {
        Some(f) => text::contains_text(text::lowercase_of(name), text::lowercase_of(f)),
        None => true,
    }
}

/// Whether a module passes a filter by vendor or module name.
pub fn passes_filter(name: &str, filter: Option<&str>) -> (r: bool)
    ensures
        r == passes(name@, text::str_opt(filter)),
{
    match filter {
        Some(f) => contains(&to_lowercase(name), &to_lowercase(f)),
        None => true,
    }
}

/// The row of a module in the inventory.
pub open spec fn module_row(m: ModuleInfoView) -> Seq<SpanView> {
    seq![
        report::plain(m.name),
        report::plain(m.classification),
        if m.is_enabled {
            report::styled("enabled"@, Style::Green)
        } else {
            report::styled("disabled"@, Style::Dimmed)
        },
        report::plain(number::dec(m.footprint.plugins_count as nat)),
        report::plain(number::dec(m.footprint.preferences_count as nat)),
        report::plain(number::dec(m.footprint.observers_count as nat)),
        report::plain(number::dec(m.footprint.cron_jobs_count as nat)),
        report::plain(number::dec(m.footprint.db_tables_count as nat)),
    ]
}

fn write_module_row(m: &ModuleInfo) -> (r: Vec<Span>)
    ensures
        report::span_views(r@) == module_row(m@),
{
    let mut out: Vec<Span> = Vec::new();
    put(&mut out, &m.name);
    put(&mut out, &m.classification);
    if m.is_enabled {
        put_styled(&mut out, "enabled", Style::Green);
    } else {
        put_styled(&mut out, "disabled", Style::Dimmed);
    }
    put(&mut out, &num(m.footprint.plugins_count));
    put(&mut out, &num(m.footprint.preferences_count));
    put(&mut out, &num(m.footprint.observers_count));
    put(&mut out, &num(m.footprint.cron_jobs_count));
    put(&mut out, &num(m.footprint.db_tables_count));
    assert(report::span_views(out@) =~= module_row(m@));
    out
}

/// What the rows of a table hold.
pub open spec fn row_views(rows: Seq<Vec<Span>>) -> Seq<Seq<SpanView>> {
    Seq::new(rows.len(), |i: int| report::span_views(rows[i]@))
}

/// What a list of modules holds.
pub open spec fn module_views(modules: Seq<ModuleInfo>) -> Seq<ModuleInfoView> {
    Seq::new(modules.len(), |i: int| modules[i]@)
}

/// The rows of the modules that pass a filter.
pub open spec fn module_rows(modules: Seq<ModuleInfoView>, filter: Option<Seq<char>>) -> Seq<
    Seq<SpanView>,
>
    decreases modules.len(),
{
    if modules.len() == 0 {
        Seq::empty()
    } else {
        let before = module_rows(modules.drop_last(), filter);
        if passes(modules.last().name, filter) {
            before.push(module_row(modules.last()))
        } else {
            before
        }
    }
}

/// Writes the inventory of the modules that pass a filter.
pub fn write_module_rows(modules: &Vec<ModuleInfo>, filter: Option<&str>) -> (r: Vec<Vec<Span>>)
    ensures
        row_views(r@) == module_rows(module_views(modules@), text::str_opt(filter)),
{
    let ghost all = module_views(modules@);
    let mut out: Vec<Vec<Span>> = Vec::new();
    let mut i: usize = 0;
    assert(row_views(out@) =~= module_rows(all.take(0), text::str_opt(filter)));
    while i < modules.len()
        invariant
            i <= modules@.len(),
            all == module_views(modules@),
            row_views(out@) == module_rows(all.take(i as int), text::str_opt(filter)),
        decreases modules@.len() - i,
    {
        assert(all.take(i + 1).drop_last() =~= all.take(i as int));
        assert(all.take(i + 1).last() == modules@[i as int]@);
        if passes_filter(&modules[i].name, filter) {
            let ghost before = out@;
            let row = write_module_row(&modules[i]);
            let ghost cells = report::span_views(row@);
            out.push(row);
            assert(row_views(out@) =~= row_views(before).push(cells));
        }
        i += 1;
    }
    assert(all.take(i as int) =~= all);
    out
}

/// The heading of the inventory, with the number of all modules.
pub fn inventory_heading(modules: &Vec<ModuleInfo>) -> (r: String)
    ensures
        r@ == "\nInstalled Modules Inventory ("@ + number::dec(modules@.len()) + ")\n\n"@,
{
    "\nInstalled Modules Inventory (".to_owned().concat(num(modules.len() as u64).as_str()).concat(
        ")\n\n",
    )
}

/// A label and a text on one line, if there is one.
pub open spec fn optional_line(label: Seq<char>, text: Option<Seq<char>>) -> Seq<SpanView> {
    match text {
        Some(t) => seq![report::plain(label + t + "\n"@)],
        None => Seq::empty(),
    }
}

fn write_optional_line(label: &str, text: &Option<String>) -> (r: Vec<Span>)
    ensures
        report::span_views(r@) == optional_line(label@, text::text_opt(*text)),
{
    let mut out: Vec<Span> = Vec::new();
    if let Some(t) = text {
        put(&mut out, &label.to_owned().concat(t.as_str()).concat("\n"));
    }
    assert(report::span_views(out@) =~= optional_line(label@, text::text_opt(*text)));
    out
}

/// The modules that a module is to be loaded after.
pub open spec fn sequence_lines(sequence: Seq<Seq<char>>) -> Seq<SpanView> {
    investigate_fmt::titled_list("\nDependencies (sequence):\n"@, sequence, "  • "@, Style::Plain)
}

/// How far a module reaches into a store.
pub open spec fn footprint_lines(f: ModuleFootprint) -> Seq<SpanView> {
    seq![
        report::plain("\nMagento Integration Footprint:\n"@),
        report::plain("  Plugins:      "@ + number::dec(f.plugins_count as nat) + "\n"@),
        report::plain("  Preferences:  "@ + number::dec(f.preferences_count as nat) + "\n"@),
        report::plain("  Observers:    "@ + number::dec(f.observers_count as nat) + "\n"@),
        report::plain("  Cron jobs:    "@ + number::dec(f.cron_jobs_count as nat) + "\n"@),
        report::plain("  DB tables:    "@ + number::dec(f.db_tables_count as nat) + "\n"@),
        report::plain("  DB columns:   "@ + number::dec(f.db_columns_count as nat) + "\n"@),
        report::plain("  Indexes:      "@ + number::dec(f.db_indexes_count as nat) + "\n"@),
    ]
}

/// The report on one module.
pub open spec fn module_report(m: ModuleInfoView) -> Seq<SpanView> {
    seq![report::plain("\n"@), report::styled(m.name, Style::BoldCyan), report::plain("\n\n"@), report::plain("Status: "@)] + (
    if m.is_enabled {
        seq![report::styled("enabled"@, Style::Green)]
    } else {
        seq![report::styled("disabled"@, Style::Red)]
    }) + seq![report::plain("\n"@)] + optional_line("Package: "@, m.package_name) + optional_line(
        "Version: "@,
        m.version,
    ) + seq![
        report::plain("Classification: "@ + m.classification + "\n"@),
        report::plain("Location: "@ + m.path + "\n"@),
    ] + sequence_lines(m.sequence) + footprint_lines(m.footprint)
}

fn count_line(label: &str, n: u64) -> (r: String)
    ensures
        r@ == label@ + number::dec(n as nat) + "\n"@,
{
    label.to_owned().concat(num(n).as_str()).concat("\n")
}

fn write_footprint(f: &ModuleFootprint) -> (r: Vec<Span>)
    ensures
        report::span_views(r@) == footprint_lines(*f),
{
    let mut out: Vec<Span> = Vec::new();
    put(&mut out, "\nMagento Integration Footprint:\n");
    put(&mut out, &count_line("  Plugins:      ", f.plugins_count));
    put(&mut out, &count_line("  Preferences:  ", f.preferences_count));
    put(&mut out, &count_line("  Observers:    ", f.observers_count));
    put(&mut out, &count_line("  Cron jobs:    ", f.cron_jobs_count));
    put(&mut out, &count_line("  DB tables:    ", f.db_tables_count));
    put(&mut out, &count_line("  DB columns:   ", f.db_columns_count));
    put(&mut out, &count_line("  Indexes:      ", f.db_indexes_count));
    assert(report::span_views(out@) =~= footprint_lines(*f));
    out
}

/// Writes the report on one module.
pub fn write_module_report(m: &ModuleInfo) -> (r: Vec<Span>)
    ensures
        report::span_views(r@) == module_report(m@),
{
    let mut out: Vec<Span> = Vec::new();
    put(&mut out, "\n");
    put_styled(&mut out, &m.name, Style::BoldCyan);
    put(&mut out, "\n\n");
    put(&mut out, "Status: ");
    if m.is_enabled {
        put_styled(&mut out, "enabled", Style::Green);
    } else {
        put_styled(&mut out, "disabled", Style::Red);
    }
    put(&mut out, "\n");
    put_all(&mut out, write_optional_line("Package: ", &m.package_name));
    put_all(&mut out, write_optional_line("Version: ", &m.version));
    put(
        &mut out,
        &"Classification: ".to_owned().concat(m.classification.as_str()).concat("\n"),
    );
    put(&mut out, &"Location: ".to_owned().concat(m.path.as_str()).concat("\n"));
    put_all(
        &mut out,
        write_titled_list("\nDependencies (sequence):\n", &m.sequence, "  • ", Style::Plain),
    );
    put_all(&mut out, write_footprint(&m.footprint));
    assert(report::span_views(out@) =~= module_report(m@));
    out
}

// Cron jobs and indexers

/// The row of a job in the table of cron jobs.
pub open spec fn cron_row(job: CronJobView) -> Seq<Seq<char>> {
    seq![
        job.name,
        job.module,
        text::text_or(job.schedule, "none"@),
        match job.interval_seconds {
            Some(s) => number::dec(s as nat) + "s"@,
            None => "custom"@,
        },
        job.instance,
    ]
}

/// Writes the row of a job in the table of cron jobs.
pub fn write_cron_row(job: &CronJob) -> (r: Vec<String>)
    ensures
        text::texts(r@) == cron_row(job@),
{
    let interval = match job.interval_seconds {
        Some(s) => num(s).concat("s"),
        None => "custom".to_owned(),
    };
    let schedule = match &job.schedule {
        Some(s) => s.clone(),
        None => "none".to_owned(),
    };
    let r: Vec<String> = vec![
        job.name.clone(),
        job.module.clone(),
        schedule,
        interval,
        job.instance.clone(),
    ];
    assert(text::texts(r@) =~= cron_row(job@));
    r
}

/// What stands above the table of cron jobs.
pub open spec fn cron_heading(summary: CronScheduleSummaryView) -> Seq<SpanView> {
    service_reports::report_heading("Cron Forensics"@) + (if summary.total_rows > 0 {
        seq![
            report::plain(
                "cron_schedule state: "@ + number::dec(summary.total_rows as nat) + " rows ("@ + number::dec(
                    summary.pending_rows as nat,
                ) + " pending, "@ + number::dec(summary.running_rows as nat) + " running, "@ + number::dec(
                    summary.missed_rows as nat,
                ) + " missed)\n"@,
            ),
        ]
    } else {
        Seq::empty()
    })
}

/// Writes what stands above the table of cron jobs.
pub fn write_cron_heading(summary: &CronScheduleSummary) -> (r: Vec<Span>)
    ensures
        report::span_views(r@) == cron_heading(summary@),
{
    let mut out = write_report_heading("Cron Forensics");
    if summary.total_rows > 0 {
        let line = "cron_schedule state: ".to_owned().concat(
            num(summary.total_rows).as_str(),
        ).concat(" rows (").concat(num(summary.pending_rows).as_str()).concat(" pending, ").concat(
            num(summary.running_rows).as_str(),
        ).concat(" running, ").concat(num(summary.missed_rows).as_str()).concat(" missed)\n");
        put(&mut out, &line);
    }
    assert(report::span_views(out@) =~= cron_heading(summary@));
    out
}

/// The row of an indexer in the table of indexers.
pub open spec fn indexer_row(indexer: IndexerView) -> Seq<Seq<char>> {
    seq![indexer.id, indexer.view_id, indexer.title, indexer.module]
}

/// Writes the row of an indexer in the table of indexers.
pub fn write_indexer_row(indexer: &Indexer) -> (r: Vec<String>)
    ensures
        text::texts(r@) == indexer_row(indexer@),
{
    let r: Vec<String> = vec![
        indexer.id.clone(),
        indexer.view_id.clone(),
        indexer.title.clone(),
        indexer.module.clone(),
    ];
    assert(text::texts(r@) =~= indexer_row(indexer@));
    r
}

// Tables

/// A text moved right by spaces to a width.
pub open spec fn right_aligned(s: Seq<char>, width: nat) -> Seq<char> {
    if s.len() >= width {
        s
    } else {
        Seq::new((width - s.len()) as nat, |i: int| ' ') + s
    }
}

/// Moves a text right by spaces to a width.
pub fn align_right(s: &str, width: usize) -> (r: String)
    ensures
        r@ == right_aligned(s@, width as nat),
{
    let n: usize = chars_of(s).len();
    let mut out = String::new();
    if n < width {
        let gap: usize = width - n;
        let mut i: usize = 0;
        assert(out@ =~= Seq::new(0, |i: int| ' '));
        while i < gap
            invariant
                i <= gap,
                out@ == Seq::new(i as nat, |i: int| ' '),
            decreases gap - i,
        {
            out.push(' ');
            i += 1;
            assert(out@ =~= Seq::new(i as nat, |i: int| ' '));
        }
    }
    let r = out.concat(s);
    assert(r@ =~= right_aligned(s@, width as nat));
    r
}

/// The line of one table.
pub open spec fn table_line(t: TableSizeStatView) -> SpanView {
    report::plain(
        "  • "@ + investigate_fmt::padded(t.table_name, 35) + " "@ + right_aligned(number::dec(t.row_count as nat), 10)
            + " rows   "@ + right_aligned(number::dec((t.total_bytes / BYTES_PER_MB) as nat), 6)
            + " MB\n"@,
    )
}

/// The number of tables that are listed.
pub const TOP_TABLES: usize = 10;

/// The lines of the first tables.
pub open spec fn table_lines(sizes: Seq<TableSizeStatView>) -> Seq<SpanView> {
    let shown = if sizes.len() > TOP_TABLES {
        TOP_TABLES as nat
    } else {
        sizes.len()
    };
    if sizes.len() == 0 {
        Seq::empty()
    } else {
        service_reports::note("Top tables by storage size:"@, Style::Bold) + Seq::new(
            shown,
            |i: int| table_line(sizes[i]),
        )
    }
}

fn write_table_line(t: &TableSizeStat) -> (r: String)
    ensures
        report::plain(r@) == table_line(t@),
{
    "  • ".to_owned().concat(pad(&t.table_name, 35).as_str()).concat(" ").concat(
        align_right(&num(t.row_count), 10).as_str(),
    ).concat(" rows   ").concat(align_right(&num(t.total_bytes / BYTES_PER_MB), 6).as_str()).concat(
        " MB\n",
    )
}

/// Writes the lines of the largest tables, which the list starts with.
pub fn write_table_lines(sizes: &Vec<TableSizeStat>) -> (r: Vec<Span>)
    ensures
        report::span_views(r@) == table_lines(live_inspector::size_views(sizes@)),
{
    let ghost all = live_inspector::size_views(sizes@);
    let n: usize = sizes.len();
    if n == 0 {
        let none: Vec<Span> = Vec::new();
        assert(report::span_views(none@) =~= Seq::<SpanView>::empty());
        return none;
    }
    let shown: usize = if n > TOP_TABLES {
        TOP_TABLES
    } else {
        n
    };
    let mut out = write_note("Top tables by storage size:", Style::Bold);
    let ghost first = report::span_views(out@);
    let mut i: usize = 0;
    assert(report::span_views(out@) =~= first + Seq::new(0, |k: int| table_line(all[k])));
    while i < shown
        invariant
            i <= shown <= n,
            n == sizes@.len(),
            all == live_inspector::size_views(sizes@),
            report::span_views(out@) == first + Seq::new(i as nat, |k: int| table_line(all[k])),
        decreases shown - i,
    {
        assert(all[i as int] == sizes@[i as int]@);
        put(&mut out, &write_table_line(&sizes[i]));
        i += 1;
        assert(report::span_views(out@) =~= first + Seq::new(i as nat, |k: int| table_line(all[k])));
    }
    assert(report::span_views(out@) =~= table_lines(all));
    out
}

/// The line of a declared index that the database lacks.
pub open spec fn missing_index_lines(missing: Seq<(String, String)>) -> Seq<SpanView>
    decreases missing.len(),
{
    if missing.len() == 0 {
        Seq::empty()
    } else {
        missing_index_lines(missing.drop_last()).push(
            report::plain("  • "@ + missing.last().0@ + "."@ + missing.last().1@ + "\n"@),
        )
    }
}

/// The report on the database.
pub open spec fn database_report(
    declared: nat,
    missing: Seq<(String, String)>,
    orphans: nat,
    sizes: Seq<TableSizeStatView>,
) -> Seq<SpanView> {
    service_reports::report_heading("Database Forensics"@) + seq![
        report::plain("Declared tables: "@ + number::dec(declared) + "\n"@),
        report::plain("Missing declared indexes: "@ + number::dec(missing.len()) + "\n"@),
        report::plain("Orphan tables: "@ + number::dec(orphans) + "\n"@),
    ] + (if missing.len() == 0 {
        Seq::empty()
    } else {
        service_reports::note("Missing declared indexes:"@, Style::BoldYellow) + missing_index_lines(missing)
    }) + table_lines(sizes)
}

fn write_missing_indexes(missing: &Vec<(String, String)>) -> (r: Vec<Span>)
    ensures
        report::span_views(r@) == missing_index_lines(missing@),
{
    let mut out: Vec<Span> = Vec::new();
    let mut i: usize = 0;
    assert(report::span_views(out@) =~= missing_index_lines(missing@.take(0)));
    while i < missing.len()
        invariant
            i <= missing@.len(),
            report::span_views(out@) == missing_index_lines(missing@.take(i as int)),
        decreases missing@.len() - i,
    {
        assert(missing@.take(i + 1).drop_last() =~= missing@.take(i as int));
        let line = "  • ".to_owned().concat(missing[i].0.as_str()).concat(".").concat(
            missing[i].1.as_str(),
        ).concat("\n");
        put(&mut out, &line);
        i += 1;
    }
    assert(missing@.take(i as int) =~= missing@);
    out
}

/// Writes the report on the database.
pub fn write_database_report(
    declared: u64,
    missing: &Vec<(String, String)>,
    orphans: u64,
    sizes: &Vec<TableSizeStat>,
) -> (r: Vec<Span>)
    ensures
        report::span_views(r@) == database_report(
            declared as nat,
            missing@,
            orphans as nat,
            live_inspector::size_views(sizes@),
        ),
{
    let mut out = write_report_heading("Database Forensics");
    put(&mut out, &count_line("Declared tables: ", declared));
    put(&mut out, &count_line("Missing declared indexes: ", missing.len() as u64));
    put(&mut out, &count_line("Orphan tables: ", orphans));
    if missing.len() > 0 {
        put_all(&mut out, write_note("Missing declared indexes:", Style::BoldYellow));
        put_all(&mut out, write_missing_indexes(missing));
    }
    put_all(&mut out, write_table_lines(sizes));
    assert(report::span_views(out@) =~= database_report(
        declared as nat,
        missing@,
        orphans as nat,
        live_inspector::size_views(sizes@),
    ));
    out
}

// Health

/// The lines of the critical findings.
pub open spec fn concern_lines(findings: Seq<FindingView>) -> Seq<SpanView>
    decreases findings.len(),
{
    if findings.len() == 0 {
        Seq::empty()
    } else {
        let before = concern_lines(findings.drop_last());
        let f = findings.last();
        if f.severity == Severity::Critical {
            before + seq![
                report::plain("  • ["@ + f.rule_id + "] "@),
                report::styled(f.title, Style::Bold),
                report::plain("\n    "@ + f.recommendation + "\n"@),
            ]
        } else {
            before
        }
    }
}

/// The report of the health check.
pub open spec fn doctor_report(health: HealthFigures, findings: Seq<FindingView>) -> Seq<SpanView> {
    service_reports::report_heading("Operational Health Check"@) + seq![
        report::plain("Overall Health: "@ + number::dec(health.overall as nat) + " / 100\n"@),
        report::plain(
            "Critical: "@ + number::dec(health.critical_count as nat) + "  Warning: "@ + number::dec(
                health.warning_count as nat,
            ) + "  Info: "@ + number::dec(health.info_count as nat) + "\n\n"@,
        ),
    ] + (if health.critical_count > 0 {
        seq![report::styled("CRITICAL CONCERNS:"@, Style::BoldRed), report::plain("\n"@)] + concern_lines(findings)
    } else {
        seq![
            report::styled("✓ No critical operational blockages detected."@, Style::BoldGreen),
            report::plain("\n"@),
        ]
    })
}

fn write_concerns(findings: &Vec<Finding>) -> (r: Vec<Span>)
    ensures
        report::span_views(r@) == concern_lines(finding::finding_views(findings@)),
{
    let ghost all = finding::finding_views(findings@);
    let mut out: Vec<Span> = Vec::new();
    let mut i: usize = 0;
    assert(report::span_views(out@) =~= concern_lines(all.take(0)));
    while i < findings.len()
        invariant
            i <= findings@.len(),
            all == finding::finding_views(findings@),
            report::span_views(out@) == concern_lines(all.take(i as int)),
        decreases findings@.len() - i,
    {
        let f = &findings[i];
        let ghost written = report::span_views(out@);
        assert(all.take(i + 1).drop_last() =~= all.take(i as int));
        assert(all.take(i + 1).last() == f@);
        if f.severity == Severity::Critical {
            put(&mut out, &"  • [".to_owned().concat(f.rule_id.as_str()).concat("] "));
            put_styled(&mut out, &f.title, Style::Bold);
            put(&mut out, &"\n    ".to_owned().concat(f.recommendation.as_str()).concat("\n"));
            assert(report::span_views(out@) =~= written + seq![
                report::plain("  • ["@ + f@.rule_id + "] "@),
                report::styled(f@.title, Style::Bold),
                report::plain("\n    "@ + f@.recommendation + "\n"@),
            ]);
        }
        i += 1;
    }
    assert(all.take(i as int) =~= all);
    out
}

/// Writes the report of the health check.
pub fn write_doctor_report(health: &HealthFigures, findings: &Vec<Finding>) -> (r: Vec<Span>)
    ensures
        report::span_views(r@) == doctor_report(*health, finding::finding_views(findings@)),
{
    let mut out = write_report_heading("Operational Health Check");
    let overall = "Overall Health: ".to_owned().concat(num(health.overall).as_str()).concat(
        " / 100\n",
    );
    put(&mut out, &overall);
    let counts = "Critical: ".to_owned().concat(num(health.critical_count).as_str()).concat(
        "  Warning: ",
    ).concat(num(health.warning_count).as_str()).concat("  Info: ").concat(
        num(health.info_count).as_str(),
    ).concat("\n\n");
    put(&mut out, &counts);
    if health.critical_count > 0 {
        put_styled(&mut out, "CRITICAL CONCERNS:", Style::BoldRed);
        put(&mut out, "\n");
        put_all(&mut out, write_concerns(findings));
    } else {
        put_styled(&mut out, "✓ No critical operational blockages detected.", Style::BoldGreen);
        put(&mut out, "\n");
    }
    assert(report::span_views(out@) =~= doctor_report(*health, finding::finding_views(findings@)));
    out
}

/// A module is listed exactly where its name holds the filter, letter case aside, or where
/// there is none; the modules stay in order.
pub proof fn law_module_filter(
    modules: Seq<ModuleInfoView>,
    m: ModuleInfoView,
    filter: Option<Seq<char>>,
)
    ensures
        ({
            let before = module_rows(modules, filter);
            let after = module_rows(modules.push(m), filter);
            let listed = filter is None || text::contains_text(
                text::lowercase_of(m.name),
                text::lowercase_of(filter->0),
            );
            &&& listed ==> after == before.push(module_row(m))
            &&& !listed ==> after == before
        }),
{
    assert(modules.push(m).drop_last() =~= modules);
}

/// The row of a module gives its name, class, state and counts in the order of the columns.
pub proof fn law_module_row(m: ModuleInfoView)
    ensures
        ({
            let row = module_row(m);
            &&& row.len() == 8
            &&& row[0].text == m.name
            &&& row[1].text == m.classification
            &&& row[2].text == if m.is_enabled {
                "enabled"@
            } else {
                "disabled"@
            }
            &&& row[3].text == number::dec(m.footprint.plugins_count as nat)
            &&& row[4].text == number::dec(m.footprint.preferences_count as nat)
            &&& row[5].text == number::dec(m.footprint.observers_count as nat)
            &&& row[6].text == number::dec(m.footprint.cron_jobs_count as nat)
            &&& row[7].text == number::dec(m.footprint.db_tables_count as nat)
        }),
{
}

/// The report on storage names the first ten tables, with their rows and whole megabytes.
pub proof fn law_top_tables(sizes: Seq<TableSizeStatView>, i: int)
    requires
        0 <= i < sizes.len(),
        i < 10,
    ensures
        ({
            let lines = table_lines(sizes);
            &&& lines.len() == 3 + if sizes.len() > 10 {
                10
            } else {
                sizes.len()
            }
            &&& lines[3 + i].text == "  • "@ + investigate_fmt::padded(sizes[i].table_name, 35)
                + " "@ + right_aligned(number::dec(sizes[i].row_count as nat), 10) + " rows   "@
                + right_aligned(number::dec((sizes[i].total_bytes / 1_048_576) as nat), 6)
                + " MB\n"@
        }),
{
}

/// A text on the right of a column ends where the column does, and none is cut.
pub proof fn law_right_aligned(s: Seq<char>, width: nat)
    ensures
        ({
            let r = right_aligned(s, width);
            &&& s.len() >= width ==> r == s
            &&& s.len() < width ==> r.len() == width
            &&& r.skip(r.len() - s.len()) == s
            &&& forall|i: int| 0 <= i < r.len() - s.len() ==> #[trigger] r[i] == ' '
        }),
{
    let r = right_aligned(s, width);
    assert(r.skip(r.len() - s.len()) =~= s);
}

/// A finding is listed among the concerns exactly where it is critical, with its rule, title
/// and recommendation.
pub proof fn law_concerns(findings: Seq<FindingView>, f: FindingView)
    ensures
        ({
            let before = concern_lines(findings);
            let after = concern_lines(findings.push(f));
            &&& f.severity != Severity::Critical ==> after == before
            &&& f.severity == Severity::Critical ==> after == before + seq![
                report::plain("  • ["@ + f.rule_id + "] "@),
                report::styled(f.title, Style::Bold),
                report::plain("\n    "@ + f.recommendation + "\n"@),
            ]
        }),
{
    assert(findings.push(f).drop_last() =~= findings);
}

/// Cron is reported on only where the schedule holds rows, and a job without a schedule or
/// an interval says so.
pub proof fn law_cron_rows(summary: CronScheduleSummaryView, job: CronJobView)
    ensures
        cron_heading(summary).len() == service_reports::report_heading("Cron Forensics"@).len() + (
        if summary.total_rows > 0 {
            1int
        } else {
            0
        }),
        cron_row(job).len() == 5,
        cron_row(job)[0] == job.name,
        cron_row(job)[1] == job.module,
        cron_row(job)[2] == if job.schedule is Some {
            job.schedule->0
        } else {
            "none"@
        },
        cron_row(job)[3] == if job.interval_seconds is Some {
            number::dec(job.interval_seconds->0 as nat) + "s"@
        } else {
            "custom"@
        },
        cron_row(job)[4] == job.instance,
{
}

} // verus!
