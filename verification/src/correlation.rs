//! Correlation between SQL statements, the declared schema and the code of a store.

use crate::model::{self, MagentoInstallation, Module, Plugin, QueryDigest, TableSchema};
use crate::patterns::{self, all_groups};
use crate::text::{
    self, contains, copy_texts, eq_ignore_ascii_case, has_text, join, remove_char, same,
    starts_with, to_lowercase,
};
use vstd::prelude::*;
use vstd::string::*;

verus! {

/// A table name after `FROM`, `JOIN`, `UPDATE` or `INTO`.
pub const TABLE_TOKEN: &'static str =
    "(?i)\\b(?:from|join|update|into)\\s+[`\"]?([a-zA-Z0-9_]+)[`\"]?";

/// What a statement digest has to do with the code of a store.
#[derive(Debug, Clone)]
pub struct QueryCorrelation {
    pub digest_fingerprint: String,
    pub tables_involved: Vec<String>,
    pub candidate_modules: Vec<String>,
    pub matched_code_references: Vec<String>,
    pub is_hot_path: bool,
    pub correlation_notes: String,
}

/// What a [`QueryCorrelation`] holds.
#[verifier::ext_equal]
pub struct QueryCorrelationView {
    pub digest_fingerprint: Seq<char>,
    pub tables_involved: Seq<Seq<char>>,
    pub candidate_modules: Seq<Seq<char>>,
    pub matched_code_references: Seq<Seq<char>>,
    pub is_hot_path: bool,
    pub correlation_notes: Seq<char>,
}

impl View for QueryCorrelation {
    type V = QueryCorrelationView;

    open spec fn view(&self) -> QueryCorrelationView {
        QueryCorrelationView {
            digest_fingerprint: self.digest_fingerprint@,
            tables_involved: text::texts(self.tables_involved@),
            candidate_modules: text::texts(self.candidate_modules@),
            matched_code_references: text::texts(self.matched_code_references@),
            is_hot_path: self.is_hot_path,
            correlation_notes: self.correlation_notes@,
        }
    }
}

/// SQL keywords that may follow a clause in place of a table name.
pub open spec fn is_sql_keyword(t: Seq<char>) -> bool {
    t == "select"@ || t == "where"@ || t == "set"@ || t == "values"@ || t == "dual"@ || t == "table"@ || t == "null"@ || t == "case"@
}

fn sql_keyword(t: &str) -> (r: bool)
    ensures
        r == is_sql_keyword(t@),
{
    same(t, "select") || same(t, "where") || same(t, "set") || same(t, "values") || same(t, "dual") || same(t, "table") || same(t, "null") || same(t, "case")
}

/// A list of texts with one more, unless it is there already.
pub open spec fn with_once(list: Seq<Seq<char>>, t: Seq<char>) -> Seq<Seq<char>> {
    if list.contains(t) {
        list
    } else {
        list.push(t)
    }
}

pub fn push_once(list: &mut Vec<String>, t: &str)
    ensures
        text::texts(final(list)@) == with_once(text::texts(old(list)@), t@),
{
    broadcast use text::lemma_texts_push;

    if !has_text(list, t) {
        list.push(t.to_owned());
    }
}

/// The captured groups that took part in a match, in lower case.
pub open spec fn lowered_groups(groups: Seq<Option<Seq<char>>>) -> Seq<Seq<char>>
    decreases groups.len(),
{
    if groups.len() == 0 {
        Seq::empty()
    } else {
        match groups.last() {
            Some(t) => lowered_groups(groups.drop_last()).push(text::lowercase_of(t)),
            None => lowered_groups(groups.drop_last()),
        }
    }
}

fn lower_groups(groups: &Vec<Option<String>>) -> (r: Vec<String>)
    ensures
        text::texts(r@) == lowered_groups(patterns::group_texts(groups@)),
{
    broadcast use {text::lemma_texts_push, text::lemma_texts_empty};

    let ghost all = patterns::group_texts(groups@);
    let mut out: Vec<String> = Vec::new();
    let mut i: usize = 0;
    while i < groups.len()
        invariant
            i <= groups@.len(),
            all == patterns::group_texts(groups@),
            text::texts(out@) == lowered_groups(all.take(i as int)),
        decreases groups@.len() - i,
    {
        assert(all.take(i + 1).drop_last() =~= all.take(i as int));
        assert(all.take(i + 1).last() == text::text_opt(groups@[i as int]));
        if let Some(t) = &groups[i] {
            out.push(to_lowercase(t));
        }
        i += 1;
    }
    assert(all.take(i as int) =~= all);
    out
}

/// Table names in the order in which they first occur: tokens that are no keyword.
pub open spec fn kept_tables(tokens: Seq<Seq<char>>) -> Seq<Seq<char>>
    decreases tokens.len(),
{
    if tokens.len() == 0 {
        Seq::empty()
    } else if is_sql_keyword(tokens.last()) {
        kept_tables(tokens.drop_last())
    } else {
        with_once(kept_tables(tokens.drop_last()), tokens.last())
    }
}

/// Picks the table names out of lower-case tokens.
pub fn keep_tables(tokens: &Vec<String>) -> (r: Vec<String>)
    ensures
        text::texts(r@) == kept_tables(text::texts(tokens@)),
{
    broadcast use text::lemma_texts_empty;

    let ghost all = text::texts(tokens@);
    let mut out: Vec<String> = Vec::new();
    let mut i: usize = 0;
    while i < tokens.len()
        invariant
            i <= tokens@.len(),
            all == text::texts(tokens@),
            text::texts(out@) == kept_tables(all.take(i as int)),
        decreases tokens@.len() - i,
    {
        assert(all.take(i + 1).drop_last() =~= all.take(i as int));
        assert(all.take(i + 1).last() == tokens@[i as int]@);
        if !sql_keyword(&tokens[i]) {
            push_once(&mut out, &tokens[i]);
        }
        i += 1;
    }
    assert(all.take(i as int) =~= all);
    out
}

/// The tables that a statement names.
pub open spec fn tables_of_sql(sql: Seq<char>) -> Seq<Seq<char>> {
    kept_tables(lowered_groups(patterns::groups_of(TABLE_TOKEN@, sql)))
}

/// Extracts table names referenced in an SQL statement.
pub fn extract_tables_from_sql(sql: &str) -> (r: Vec<String>)
    ensures
        text::texts(r@) == tables_of_sql(sql@),
{
    let groups = all_groups(TABLE_TOKEN, sql);
    keep_tables(&lower_groups(&groups))
}

/// The owner of the declared table of that very name, if it has one. Names are distinct; in a
/// list where they are not, the first with an owner counts.
pub open spec fn declared_owner(declared: Seq<TableSchema>, name: Seq<char>) -> Option<Seq<char>>
    recommends
        model::names_are_distinct(declared),
    decreases declared.len(),
{
    if declared.len() == 0 {
        None
    } else if declared[0].name@ == name && declared[0].owning_module is Some {
        text::text_opt(declared[0].owning_module)
    } else {
        declared_owner(declared.drop_first(), name)
    }
}

/// The module of the first declared table that has an owner and whose name differs in the
/// case of ASCII letters at most.
pub open spec fn declared_owner_any_case(
    declared: Seq<TableSchema>,
    name: Seq<char>,
) -> Option<Seq<char>>
    decreases declared.len(),
{
    if declared.len() == 0 {
        None
    } else if text::ascii_lower(declared[0].name@) == text::ascii_lower(name)
        && declared[0].owning_module is Some {
        text::text_opt(declared[0].owning_module)
    } else {
        declared_owner_any_case(declared.drop_first(), name)
    }
}

fn find_owner(declared: &Vec<TableSchema>, name: &str, any_case: bool) -> (r: Option<String>)
    ensures
        text::text_opt(r) == if any_case {
            declared_owner_any_case(declared@, name@)
        } else {
            declared_owner(declared@, name@)
        },
{
    let mut i: usize = 0;
    assert(declared@.skip(0) =~= declared@);
    while i < declared.len()
        invariant
            i <= declared@.len(),
            !any_case ==> declared_owner(declared@, name@) == declared_owner(
                declared@.skip(i as int),
                name@,
            ),
            any_case ==> declared_owner_any_case(declared@, name@) == declared_owner_any_case(
                declared@.skip(i as int),
                name@,
            ),
        decreases declared@.len() - i,
    {
        assert(declared@.skip(i as int).drop_first() =~= declared@.skip(i + 1));
        let hit = if any_case {
            eq_ignore_ascii_case(&declared[i].name, name)
        } else {
            same(&declared[i].name, name)
        };
        if hit {
            if let Some(m) = &declared[i].owning_module {
                return Some(m.clone());
            }
        }
        i += 1;
    }
    None
}

/// The core module that tables of that lower-case name belong to.
pub open spec fn core_module(t: Seq<char>) -> Option<Seq<char>> {
    if text::has_prefix(t, "catalog_"@) || text::has_prefix(t, "cataloginventory_"@) {
        Some("Magento_Catalog"@)
    } else if text::has_prefix(t, "sales_"@) || text::has_prefix(t, "sales_order"@) {
        Some("Magento_Sales"@)
    } else if text::has_prefix(t, "quote"@) {
        Some("Magento_Quote"@)
    } else if text::has_prefix(t, "customer_"@) {
        Some("Magento_Customer"@)
    } else if t == "url_rewrite"@ {
        Some("Magento_UrlRewrite"@)
    } else if text::has_prefix(t, "eav_"@) {
        Some("Magento_Eav"@)
    } else if text::has_prefix(t, "cms_"@) {
        Some("Magento_Cms"@)
    } else if text::has_prefix(t, "newsletter_"@) {
        Some("Magento_Newsletter"@)
    } else if t == "cron_schedule"@ {
        Some("Magento_Cron"@)
    } else if t == "core_config_data"@ {
        Some("Magento_Config"@)
    } else if text::has_prefix(t, "inventory_"@) {
        Some("Magento_Inventory"@)
    } else if text::has_prefix(t, "search_query"@) || text::has_prefix(t, "catalogsearch_"@) {
        Some("Magento_CatalogSearch"@)
    } else {
        None
    }
}

/// The core module that tables of that lower-case name belong to.
pub fn core_table_module(t: &str) -> (r: Option<String>)
    ensures
        text::text_opt(r) == core_module(t@),
{
    if starts_with(t, "catalog_") || starts_with(t, "cataloginventory_") {
        Some("Magento_Catalog".to_owned())
    } else if starts_with(t, "sales_") || starts_with(t, "sales_order") {
        Some("Magento_Sales".to_owned())
    } else if starts_with(t, "quote") {
        Some("Magento_Quote".to_owned())
    } else if starts_with(t, "customer_") {
        Some("Magento_Customer".to_owned())
    } else if same(t, "url_rewrite") {
        Some("Magento_UrlRewrite".to_owned())
    } else if starts_with(t, "eav_") {
        Some("Magento_Eav".to_owned())
    } else if starts_with(t, "cms_") {
        Some("Magento_Cms".to_owned())
    } else if starts_with(t, "newsletter_") {
        Some("Magento_Newsletter".to_owned())
    } else if same(t, "cron_schedule") {
        Some("Magento_Cron".to_owned())
    } else if same(t, "core_config_data") {
        Some("Magento_Config".to_owned())
    } else if starts_with(t, "inventory_") {
        Some("Magento_Inventory".to_owned())
    } else if starts_with(t, "search_query") || starts_with(t, "catalogsearch_") {
        Some("Magento_CatalogSearch".to_owned())
    } else {
        None
    }
}

/// The module that owns a table: its declared owner, else the core module that its name,
/// whose lower-case form is `lower`, points to.
pub open spec fn module_of_table(
    name: Seq<char>,
    lower: Seq<char>,
    declared: Seq<TableSchema>,
) -> Option<Seq<char>> {
    match declared_owner(declared, name) {
        Some(m) => Some(m),
        None => match declared_owner_any_case(declared, lower) {
            Some(m) => Some(m),
            None => core_module(lower),
        },
    }
}

/// Maps a table, given with the lower-case form of its name, to its module.
pub fn map_lowered_table(name: &str, lower: &str, declared_tables: &Vec<TableSchema>) -> (r: Option<
    String,
>)
    ensures
        text::text_opt(r) == module_of_table(name@, lower@, declared_tables@),
{
    if let Some(m) = find_owner(declared_tables, name, false) {
        return Some(m);
    }
    if let Some(m) = find_owner(declared_tables, lower, true) {
        return Some(m);
    }
    core_table_module(lower)
}

/// Maps a table name to the most likely owning module.
pub fn map_table_to_module(table_name: &str, declared_tables: &Vec<TableSchema>) -> (r: Option<
    String,
>)
    ensures
        text::text_opt(r) == module_of_table(table_name@, text::lowercase_of(table_name@), declared_tables@),
{
    let lower = to_lowercase(table_name);
    map_lowered_table(table_name, &lower, declared_tables)
}

/// Whether a table name starts with the lower-case name of a module, with its underscore
/// or, both names taken without underscores, without it.
pub open spec fn named_after(table: Seq<char>, slug: Seq<char>, snake: Seq<char>) -> bool {
    text::has_prefix(text::without_char(table, '_'), slug) || text::has_prefix(table, snake)
}

pub fn is_named_after(table: &str, slug: &str, snake: &str) -> (r: bool)
    ensures
        r == named_after(table@, slug@, snake@),
{
    starts_with(&remove_char(table, '_'), slug) || starts_with(table, snake)
}

/// Candidate modules with those added whose name the table name starts with.
pub open spec fn with_named_modules(
    list: Seq<Seq<char>>,
    table: Seq<char>,
    modules: Seq<Module>,
) -> Seq<Seq<char>>
    decreases modules.len(),
{
    if modules.len() == 0 {
        list
    } else {
        let before = with_named_modules(list, table, modules.drop_last());
        let name = modules.last().name@;
        if named_after(table, text::lowercase_of(text::without_char(name, '_')), text::lowercase_of(name)) {
            with_once(before, name)
        } else {
            before
        }
    }
}

fn add_named_modules(list: &mut Vec<String>, table: &str, modules: &Vec<Module>)
    ensures
        text::texts(final(list)@) == with_named_modules(text::texts(old(list)@), table@, modules@),
{
    let ghost start = text::texts(list@);
    let mut i: usize = 0;
    while i < modules.len()
        invariant
            i <= modules@.len(),
            text::texts(list@) == with_named_modules(start, table@, modules@.take(i as int)),
        decreases modules@.len() - i,
    {
        assert(modules@.take(i + 1).drop_last() =~= modules@.take(i as int));
        let name = &modules[i].name;
        let slug = to_lowercase(&remove_char(name, '_'));
        let snake = to_lowercase(name);
        if is_named_after(table, &slug, &snake) {
            push_once(list, name);
        }
        i += 1;
    }
    assert(modules@.take(i as int) =~= modules@);
}

/// The modules that may be behind the tables of a statement.
pub open spec fn candidates(
    tables: Seq<Seq<char>>,
    declared: Seq<TableSchema>,
    modules: Seq<Module>,
) -> Seq<Seq<char>>
    decreases tables.len(),
{
    if tables.len() == 0 {
        Seq::empty()
    } else {
        let before = candidates(tables.drop_last(), declared, modules);
        let table = tables.last();
        match module_of_table(table, text::lowercase_of(table), declared) {
            Some(m) => with_once(before, m),
            None => with_named_modules(before, table, modules),
        }
    }
}

/// The core modules on the path of every shopper.
pub open spec fn is_hot_module(m: Option<Seq<char>>) -> bool {
    m == Some("Magento_Quote"@) || m == Some("Magento_Sales"@) || m == Some("Magento_Catalog"@)
}

/// Whether a table of a hot core module is among the tables.
pub open spec fn touches_hot_path(tables: Seq<Seq<char>>, declared: Seq<TableSchema>) -> bool {
    exists|i: int|
        0 <= i < tables.len() && is_hot_module(
            module_of_table(#[trigger] tables[i], text::lowercase_of(tables[i]), declared),
        )
}

/// Classes that a plugin on the shopping path wraps.
pub open spec fn is_hot_class(class: Seq<char>) -> bool {
    text::contains_text(class, "Quote"@) || text::contains_text(class, "Product"@) || text::contains_text(
        class,
        "Order"@,
    )
}

/// The plugins of candidate modules on hot classes.
pub open spec fn code_references(plugins: Seq<Plugin>, modules: Seq<Seq<char>>) -> Seq<Seq<char>>
    decreases plugins.len(),
{
    if plugins.len() == 0 {
        Seq::empty()
    } else {
        let before = code_references(plugins.drop_last(), modules);
        let p = plugins.last();
        if modules.contains(p.module@) && is_hot_class(p.target_class@) {
            before.push("Plugin: "@ + p.plugin_class@ + " ("@ + p.source_file@ + ")"@)
        } else {
            before
        }
    }
}

fn find_references(plugins: &Vec<Plugin>, modules: &Vec<String>) -> (r: Vec<String>)
    ensures
        text::texts(r@) == code_references(plugins@, text::texts(modules@)),
{
    broadcast use {text::lemma_texts_push, text::lemma_texts_empty};

    let mut out: Vec<String> = Vec::new();
    let mut i: usize = 0;
    while i < plugins.len()
        invariant
            i <= plugins@.len(),
            text::texts(out@) == code_references(plugins@.take(i as int), text::texts(modules@)),
        decreases plugins@.len() - i,
    {
        assert(plugins@.take(i + 1).drop_last() =~= plugins@.take(i as int));
        let p = &plugins[i];
        if has_text(modules, &p.module) && (contains(&p.target_class, "Quote") || contains(
            &p.target_class,
            "Product",
        ) || contains(&p.target_class, "Order")) {
            out.push(
                "Plugin: ".to_owned().concat(p.plugin_class.as_str()).concat(" (").concat(
                    p.source_file.as_str(),
                ).concat(")"),
            );
        }
        i += 1;
    }
    assert(plugins@.take(i as int) =~= plugins@);
    out
}

/// What is said of a correlation.
pub open spec fn correlation_note(modules: Seq<Seq<char>>, hot: bool) -> Seq<char> {
    if modules.len() == 0 {
        "Query operates on dynamic or untracked tables."@
    } else {
        "Query touches tables managed by: "@ + text::joined(modules, ", "@) + ". Hot path: "@ + (if hot {
            "YES"@
        } else {
            "NO"@
        }) + "."@
    }
}

fn note_of(modules: &Vec<String>, hot: bool) -> (r: String)
    ensures
        r@ == correlation_note(text::texts(modules@), hot),
{
    if modules.len() == 0 {
        "Query operates on dynamic or untracked tables.".to_owned()
    } else {
        "Query touches tables managed by: ".to_owned().concat(join(modules, ", ").as_str()).concat(
            ". Hot path: ",
        ).concat(
            if hot {
                "YES"
            } else {
                "NO"
            },
        ).concat(".")
    }
}

/// What a digest has to do with a store.
pub open spec fn correlation_of(
    fingerprint: Seq<char>,
    tables: Seq<Seq<char>>,
    installation: MagentoInstallation,
) -> QueryCorrelationView {
    let declared = installation.declared_tables@;
    let modules = candidates(tables, declared, installation.modules@);
    let hot = touches_hot_path(tables, declared);
    QueryCorrelationView {
        digest_fingerprint: fingerprint,
        tables_involved: tables,
        candidate_modules: modules,
        matched_code_references: code_references(installation.plugins@, modules),
        is_hot_path: hot,
        correlation_notes: correlation_note(modules, hot),
    }
}

/// Correlates a query digest with the modules and touchpoints of a store.
pub fn correlate_query(digest: &QueryDigest, installation: &MagentoInstallation) -> (r:
    QueryCorrelation)
    ensures
        r@ == correlation_of(digest@.fingerprint, digest@.tables_involved, *installation),
{
    broadcast use text::lemma_texts_empty;

    let ghost tables = text::texts(digest.tables_involved@);
    let ghost declared = installation.declared_tables@;
    let mut modules: Vec<String> = Vec::new();
    let mut hot = false;
    let mut i: usize = 0;
    while i < digest.tables_involved.len()
        invariant
            i <= digest.tables_involved@.len(),
            tables == text::texts(digest.tables_involved@),
            declared == installation.declared_tables@,
            text::texts(modules@) == candidates(
                tables.take(i as int),
                declared,
                installation.modules@,
            ),
            hot == touches_hot_path(tables.take(i as int), declared),
        decreases digest.tables_involved@.len() - i,
    {
        let table = &digest.tables_involved[i];
        let ghost before = tables.take(i as int);
        let ghost now = tables.take(i + 1);
        proof {
            assert(now.drop_last() =~= before);
            assert(now.last() == table@);
            assert(forall|k: int| 0 <= k < i ==> now[k] == before[k]);
        }
        let owner = map_table_to_module(table, &installation.declared_tables);
        let ghost named = text::text_opt(owner);
        match &owner {
            Some(m) => {
                push_once(&mut modules, m);
                if same(m, "Magento_Quote") || same(m, "Magento_Sales") || same(
                    m,
                    "Magento_Catalog",
                ) {
                    hot = true;
                    assert(is_hot_module(module_of_table(now[i as int], text::lowercase_of(now[i as int]), declared)));
                } else {
                    assert(!is_hot_module(named));
                }
            },
            None => {
                add_named_modules(&mut modules, table, &installation.modules);
            },
        }
        proof {
            if touches_hot_path(before, declared) {
                let k = choose|k: int|
                    0 <= k < before.len() && is_hot_module(
                        module_of_table(#[trigger] before[k], text::lowercase_of(before[k]), declared),
                    );
                assert(is_hot_module(module_of_table(now[k], text::lowercase_of(now[k]), declared)));
            }
            if touches_hot_path(now, declared) {
                let k = choose|k: int|
                    0 <= k < now.len() && is_hot_module(
                        module_of_table(#[trigger] now[k], text::lowercase_of(now[k]), declared),
                    );
                if k < i {
                    assert(is_hot_module(
                        module_of_table(before[k], text::lowercase_of(before[k]), declared),
                    ));
                }
            }
        }
        i += 1;
    }
    assert(tables.take(i as int) =~= tables);
    let references = find_references(&installation.plugins, &modules);
    let notes = note_of(&modules, hot);
    QueryCorrelation {
        digest_fingerprint: digest.fingerprint.clone(),
        tables_involved: copy_texts(&digest.tables_involved),
        candidate_modules: modules,
        matched_code_references: references,
        is_hot_path: hot,
        correlation_notes: notes,
    }
}

/// A list stays free of duplicates when a text is added once.
proof fn lemma_with_once(list: Seq<Seq<char>>, t: Seq<char>)
    requires
        list.no_duplicates(),
    ensures
        with_once(list, t).no_duplicates(),
        forall|x: Seq<char>| #[trigger]
            with_once(list, t).contains(x) <==> list.contains(x) || x == t,
{
    let r = with_once(list, t);
    assert forall|x: Seq<char>| #[trigger] r.contains(x) <==> list.contains(x) || x == t by {
        if list.contains(x) && !list.contains(t) {
            let k = choose|k: int| 0 <= k < list.len() && list[k] == x;
            assert(r[k] == x);
        }
        if x == t && !list.contains(t) {
            assert(r[r.len() - 1] == t);
        }
        if r.contains(x) && x != t {
            let k = choose|k: int| 0 <= k < r.len() && r[k] == x;
            assert(list[k] == x);
        }
    }
}

/// The tables of a statement are exactly its tokens that are no SQL keyword, each named once.
pub proof fn law_tables_are_named_once(tokens: Seq<Seq<char>>)
    ensures
        kept_tables(tokens).no_duplicates(),
        forall|t: Seq<char>| #[trigger]
            kept_tables(tokens).contains(t) <==> tokens.contains(t) && !is_sql_keyword(t),
    decreases tokens.len(),
{
    if tokens.len() > 0 {
        let init = tokens.drop_last();
        let last = tokens.last();
        law_tables_are_named_once(init);
        lemma_with_once(kept_tables(init), last);
        assert forall|t: Seq<char>| #[trigger] kept_tables(tokens).contains(t) <==> tokens.contains(
            t,
        ) && !is_sql_keyword(t) by {
            if tokens.contains(t) && t != last {
                let k = choose|k: int| 0 <= k < tokens.len() && tokens[k] == t;
                assert(init[k] == t);
            }
            if init.contains(t) {
                let k = choose|k: int| 0 <= k < init.len() && init[k] == t;
                assert(tokens[k] == t);
            }
            if t == last {
                assert(tokens[tokens.len() - 1] == t);
            }
            assert(kept_tables(init).contains(t) <==> init.contains(t) && !is_sql_keyword(t));
        }
    }
}

proof fn lemma_named_modules_once(list: Seq<Seq<char>>, table: Seq<char>, modules: Seq<Module>)
    requires
        list.no_duplicates(),
    ensures
        with_named_modules(list, table, modules).no_duplicates(),
    decreases modules.len(),
{
    if modules.len() > 0 {
        lemma_named_modules_once(list, table, modules.drop_last());
        lemma_with_once(
            with_named_modules(list, table, modules.drop_last()),
            modules.last().name@,
        );
    }
}

/// No module is named twice among those that a statement has to do with.
pub proof fn law_candidates_are_named_once(
    tables: Seq<Seq<char>>,
    declared: Seq<TableSchema>,
    modules: Seq<Module>,
)
    ensures
        candidates(tables, declared, modules).no_duplicates(),
    decreases tables.len(),
{
    if tables.len() > 0 {
        law_candidates_are_named_once(tables.drop_last(), declared, modules);
        let before = candidates(tables.drop_last(), declared, modules);
        let table = tables.last();
        match module_of_table(table, text::lowercase_of(table), declared) {
            Some(m) => {
                lemma_with_once(before, m);
            },
            None => {
                lemma_named_modules_once(before, table, modules);
            },
        }
    }
}

/// Where every table is declared once, its owner is the one that its declaration names, and a
/// table that is not declared has none.
pub proof fn law_declared_owner(declared: Seq<TableSchema>, name: Seq<char>)
    requires
        model::names_are_distinct(declared),
    ensures
        forall|i: int|
            0 <= i < declared.len() && (#[trigger] declared[i]).name@ == name ==> declared_owner(
                declared,
                name,
            ) == text::text_opt(declared[i].owning_module),
        (forall|i: int| 0 <= i < declared.len() ==> (#[trigger] declared[i]).name@ != name)
            ==> declared_owner(declared, name) is None,
    decreases declared.len(),
{
    if declared.len() > 0 {
        let rest = declared.drop_first();
        assert forall|i: int, j: int| 0 <= i < j < rest.len() implies (
        #[trigger] rest[i]).name@ != (#[trigger] rest[j]).name@ by {
            assert(rest[i] == declared[i + 1] && rest[j] == declared[j + 1]);
        }
        law_declared_owner(rest, name);
        assert forall|i: int| 0 <= i < declared.len() && (
        #[trigger] declared[i]).name@ == name implies declared_owner(declared, name)
            == text::text_opt(declared[i].owning_module) by {
            if i > 0 {
                assert(rest[i - 1] == declared[i]);
            } else {
                assert forall|k: int| 0 <= k < rest.len() implies (#[trigger] rest[k]).name@
                    != name by {
                    assert(rest[k] == declared[k + 1]);
                }
            }
        }
        if forall|i: int| 0 <= i < declared.len() ==> (#[trigger] declared[i]).name@ != name {
            assert forall|k: int| 0 <= k < rest.len() implies (#[trigger] rest[k]).name@ != name by {
                assert(rest[k] == declared[k + 1]);
            }
        }
    }
}

/// A digest is on the hot path exactly when one of its tables belongs to the quote, the sales
/// or the catalog module.
pub proof fn law_hot_path(digest: QueryDigest, installation: MagentoInstallation, r: QueryCorrelation)
    requires
        r@ == correlation_of(digest@.fingerprint, digest@.tables_involved, installation),
    ensures
        r.is_hot_path <==> exists|i: int|
            0 <= i < digest.tables_involved@.len() && ({
                let table = (#[trigger] digest.tables_involved@[i])@;
                let m = module_of_table(
                    table,
                    text::lowercase_of(table),
                    installation.declared_tables@,
                );
                m == Some("Magento_Quote"@) || m == Some("Magento_Sales"@) || m == Some(
                    "Magento_Catalog"@,
                )
            }),
{
    let tables = digest@.tables_involved;
    assert(tables.len() == digest.tables_involved@.len());
    assert forall|i: int| 0 <= i < tables.len() implies #[trigger] tables[i]
        == digest.tables_involved@[i]@ by {}
    let declared = installation.declared_tables@;
    if r.is_hot_path {
        let i = choose|i: int|
            0 <= i < tables.len() && is_hot_module(
                module_of_table(#[trigger] tables[i], text::lowercase_of(tables[i]), declared),
            );
        assert(digest.tables_involved@[i]@ == tables[i]);
    }
    if exists|i: int|
        0 <= i < digest.tables_involved@.len() && ({
            let table = (#[trigger] digest.tables_involved@[i])@;
            let m = module_of_table(table, text::lowercase_of(table), declared);
            m == Some("Magento_Quote"@) || m == Some("Magento_Sales"@) || m == Some(
                "Magento_Catalog"@,
            )
        }) {
        let i = choose|i: int|
            0 <= i < digest.tables_involved@.len() && ({
                let table = (#[trigger] digest.tables_involved@[i])@;
                let m = module_of_table(table, text::lowercase_of(table), declared);
                m == Some("Magento_Quote"@) || m == Some("Magento_Sales"@) || m == Some(
                    "Magento_Catalog"@,
                )
            });
        assert(is_hot_module(
            module_of_table(tables[i], text::lowercase_of(tables[i]), declared),
        ));
    }
}

/// Whether some declared table, whatever the case of its letters, has that name and an owner.
pub open spec fn has_declared_owner(
    declared: Seq<TableSchema>,
    name: Seq<char>,
    lower: Seq<char>,
) -> bool {
    exists|i: int|
        0 <= i < declared.len() && (#[trigger] declared[i]).owning_module is Some && (
        declared[i].name@ == name || text::ascii_lower(declared[i].name@) == text::ascii_lower(
            lower,
        ))
}

proof fn lemma_no_declared_owner(declared: Seq<TableSchema>, name: Seq<char>, lower: Seq<char>)
    ensures
        declared_owner(declared, name) matches Some(m) ==> exists|i: int|
            0 <= i < declared.len() && (#[trigger] declared[i]).name@ == name && text::text_opt(
                declared[i].owning_module,
            ) == Some(m),
        declared_owner_any_case(declared, lower) matches Some(m) ==> exists|i: int|
            0 <= i < declared.len() && text::ascii_lower((#[trigger] declared[i]).name@)
                == text::ascii_lower(lower) && text::text_opt(declared[i].owning_module) == Some(m),
        declared_owner(declared, name) is None ==> forall|i: int|
            0 <= i < declared.len() && (#[trigger] declared[i]).name@ == name
                ==> declared[i].owning_module is None,
        declared_owner_any_case(declared, lower) is None ==> forall|i: int|
            0 <= i < declared.len() && text::ascii_lower((#[trigger] declared[i]).name@)
                == text::ascii_lower(lower) ==> declared[i].owning_module is None,
    decreases declared.len(),
{
    if declared.len() > 0 {
        let rest = declared.drop_first();
        lemma_no_declared_owner(rest, name, lower);
        assert(forall|i: int| 0 <= i < rest.len() ==> #[trigger] rest[i] == declared[i + 1]);
        if declared_owner(declared, name) is Some && !(declared[0].name@ == name
            && declared[0].owning_module is Some) {
            let m = declared_owner(declared, name)->0;
            let i = choose|i: int|
                0 <= i < rest.len() && (#[trigger] rest[i]).name@ == name && text::text_opt(
                    rest[i].owning_module,
                ) == Some(m);
            assert(declared[i + 1].name@ == name);
        }
        if declared_owner_any_case(declared, lower) is Some && !(text::ascii_lower(
            declared[0].name@,
        ) == text::ascii_lower(lower) && declared[0].owning_module is Some) {
            let m = declared_owner_any_case(declared, lower)->0;
            let i = choose|i: int|
                0 <= i < rest.len() && text::ascii_lower((#[trigger] rest[i]).name@)
                    == text::ascii_lower(lower) && text::text_opt(rest[i].owning_module) == Some(m);
            assert(text::ascii_lower(declared[i + 1].name@) == text::ascii_lower(lower));
        }
        assert forall|i: int| 0 <= i < declared.len() && (#[trigger] declared[i]).name@ == name
            && declared_owner(declared, name) is None implies declared[i].owning_module is None by {
            if i > 0 {
                assert(rest[i - 1] == declared[i]);
            }
        }
        assert forall|i: int| 0 <= i < declared.len() && text::ascii_lower(
            (#[trigger] declared[i]).name@,
        ) == text::ascii_lower(lower) && declared_owner_any_case(declared, lower)
            is None implies declared[i].owning_module is None by {
            if i > 0 {
                assert(rest[i - 1] == declared[i]);
            }
        }
    }
}

/// A declared owner wins over what the name of a table points to: where a table of that name,
/// at least up to the case of its letters, is declared with an owner, its module is such an
/// owner, and that of the very name wherever it has one.
pub proof fn law_declared_owner_wins(
    name: Seq<char>,
    lower: Seq<char>,
    declared: Seq<TableSchema>,
)
    requires
        has_declared_owner(declared, name, lower),
    ensures
        exists|i: int|
            0 <= i < declared.len() && (declared[i].name@ == name || text::ascii_lower(
                declared[i].name@,
            ) == text::ascii_lower(lower)) && text::text_opt(
                (#[trigger] declared[i]).owning_module,
            ) == module_of_table(name, lower, declared),
        module_of_table(name, lower, declared) is Some,
        forall|i: int|
            0 <= i < declared.len() && model::names_are_distinct(declared) && (
            #[trigger] declared[i]).name@ == name && declared[i].owning_module is Some
                ==> module_of_table(name, lower, declared) == text::text_opt(
                declared[i].owning_module,
            ),
{
    lemma_no_declared_owner(declared, name, lower);
    if model::names_are_distinct(declared) {
        law_declared_owner(declared, name);
    }
    let i = choose|i: int|
        0 <= i < declared.len() && (#[trigger] declared[i]).owning_module is Some && (
        declared[i].name@ == name || text::ascii_lower(declared[i].name@) == text::ascii_lower(
            lower,
        ));
    assert(declared[i].owning_module is Some);
}

/// Without a declared owner the name of a table tells its core module, or none.
pub proof fn law_core_tables(name: Seq<char>, t: Seq<char>, declared: Seq<TableSchema>)
    requires
        !has_declared_owner(declared, name, t),
    ensures
        ({
            let m = module_of_table(name, t, declared);
            &&& text::has_prefix(t, "catalog_"@) ==> m == Some("Magento_Catalog"@)
            &&& text::has_prefix(t, "cataloginventory_"@) ==> m == Some("Magento_Catalog"@)
            &&& text::has_prefix(t, "sales_"@) ==> m == Some("Magento_Sales"@)
            &&& text::has_prefix(t, "quote"@) ==> m == Some("Magento_Quote"@)
            &&& text::has_prefix(t, "customer_"@) ==> m == Some("Magento_Customer"@)
            &&& t == "url_rewrite"@ ==> m == Some("Magento_UrlRewrite"@)
            &&& text::has_prefix(t, "eav_"@) ==> m == Some("Magento_Eav"@)
            &&& text::has_prefix(t, "cms_"@) ==> m == Some("Magento_Cms"@)
            &&& text::has_prefix(t, "newsletter_"@) ==> m == Some("Magento_Newsletter"@)
            &&& t == "cron_schedule"@ ==> m == Some("Magento_Cron"@)
            &&& t == "core_config_data"@ ==> m == Some("Magento_Config"@)
            &&& text::has_prefix(t, "inventory_"@) ==> m == Some("Magento_Inventory"@)
            &&& text::has_prefix(t, "search_query"@) ==> m == Some("Magento_CatalogSearch"@)
            &&& text::has_prefix(t, "catalogsearch_"@) ==> m == Some("Magento_CatalogSearch"@)
            &&& m is Some ==> {
                ||| text::has_prefix(t, "catalog_"@)
                ||| text::has_prefix(t, "cataloginventory_"@)
                ||| text::has_prefix(t, "sales_"@)
                ||| text::has_prefix(t, "quote"@)
                ||| text::has_prefix(t, "customer_"@)
                ||| t == "url_rewrite"@
                ||| text::has_prefix(t, "eav_"@)
                ||| text::has_prefix(t, "cms_"@)
                ||| text::has_prefix(t, "newsletter_"@)
                ||| t == "cron_schedule"@
                ||| t == "core_config_data"@
                ||| text::has_prefix(t, "inventory_"@)
                ||| text::has_prefix(t, "search_query"@)
                ||| text::has_prefix(t, "catalogsearch_"@)
            }
        }),
{
    lemma_no_declared_owner(declared, name, t);
    assert(declared_owner(declared, name) is None);
    assert(declared_owner_any_case(declared, t) is None);
    lemma_core_prefixes(t);
}

/// The prefixes of core tables exclude each other.
proof fn lemma_core_prefixes(t: Seq<char>)
    ensures
        text::has_prefix(t, "catalog_"@) ==> t.len() > 7 && t[0] == 'c' && t[1] == 'a' && t[7] == '_',
        text::has_prefix(t, "cataloginventory_"@) ==> t.len() > 7 && t[0] == 'c' && t[1] == 'a' && t[7] == 'i',
        text::has_prefix(t, "catalogsearch_"@) ==> t.len() > 7 && t[0] == 'c' && t[1] == 'a' && t[7] == 's',
        text::has_prefix(t, "sales_"@) ==> t.len() > 1 && t[0] == 's' && t[1] == 'a',
        text::has_prefix(t, "sales_order"@) ==> text::has_prefix(t, "sales_"@),
        text::has_prefix(t, "quote"@) ==> t.len() > 1 && t[0] == 'q',
        text::has_prefix(t, "customer_"@) ==> t.len() > 1 && t[0] == 'c' && t[1] == 'u',
        t == "url_rewrite"@ ==> t.len() > 1 && t[0] == 'u',
        text::has_prefix(t, "eav_"@) ==> t.len() > 1 && t[0] == 'e',
        text::has_prefix(t, "cms_"@) ==> t.len() > 1 && t[0] == 'c' && t[1] == 'm',
        text::has_prefix(t, "newsletter_"@) ==> t.len() > 1 && t[0] == 'n',
        t == "cron_schedule"@ ==> t.len() > 1 && t[0] == 'c' && t[1] == 'r',
        t == "core_config_data"@ ==> t.len() > 1 && t[0] == 'c' && t[1] == 'o',
        text::has_prefix(t, "inventory_"@) ==> t.len() > 1 && t[0] == 'i',
        text::has_prefix(t, "search_query"@) ==> t.len() > 1 && t[0] == 's' && t[1] == 'e',
{
    reveal_strlit("catalog_");
    reveal_strlit("cataloginventory_");
    reveal_strlit("catalogsearch_");
    reveal_strlit("sales_");
    reveal_strlit("sales_order");
    reveal_strlit("quote");
    reveal_strlit("customer_");
    reveal_strlit("url_rewrite");
    reveal_strlit("eav_");
    reveal_strlit("cms_");
    reveal_strlit("newsletter_");
    reveal_strlit("cron_schedule");
    reveal_strlit("core_config_data");
    reveal_strlit("inventory_");
    reveal_strlit("search_query");
    lemma_prefix_chars(t, "catalog_"@);
    lemma_prefix_chars(t, "cataloginventory_"@);
    lemma_prefix_chars(t, "catalogsearch_"@);
    lemma_prefix_chars(t, "sales_"@);
    lemma_prefix_chars(t, "sales_order"@);
    lemma_prefix_chars(t, "quote"@);
    lemma_prefix_chars(t, "customer_"@);
    lemma_prefix_chars(t, "eav_"@);
    lemma_prefix_chars(t, "cms_"@);
    lemma_prefix_chars(t, "newsletter_"@);
    lemma_prefix_chars(t, "inventory_"@);
    lemma_prefix_chars(t, "search_query"@);
    if text::has_prefix(t, "sales_order"@) {
        assert(t.subrange(0, 6) =~= "sales_"@);
    }
}

proof fn lemma_prefix_chars(t: Seq<char>, p: Seq<char>)
    ensures
        text::has_prefix(t, p) ==> t.len() >= p.len() && forall|i: int|
            0 <= i < p.len() ==> #[trigger] t[i] == p[i],
{
    if text::has_prefix(t, p) {
        assert forall|i: int| 0 <= i < p.len() implies #[trigger] t[i] == p[i] by {
            assert(t.subrange(0, p.len() as int)[i] == t[i]);
        }
    }
}

/// A module is a candidate of a digest exactly when it owns one of the tables or, where no
/// module does, when it is installed and the table is named after it.
pub proof fn law_candidate_modules(
    tables: Seq<Seq<char>>,
    declared: Seq<TableSchema>,
    modules: Seq<Module>,
    m: Seq<char>,
)
    ensures
        candidates(tables, declared, modules).contains(m) <==> exists|i: int|
            0 <= i < tables.len() && is_candidate_for(#[trigger] tables[i], declared, modules, m),
    decreases tables.len(),
{
    if tables.len() > 0 {
        let init = tables.drop_last();
        let table = tables.last();
        let before = candidates(init, declared, modules);
        law_candidate_modules(init, declared, modules, m);
        match module_of_table(table, text::lowercase_of(table), declared) {
            Some(owner) => {
                lemma_once_contains(before, owner, m);
            },
            None => {
                lemma_named_contains(before, table, modules, m);
            },
        }
        if candidates(tables, declared, modules).contains(m) {
            if before.contains(m) {
                let i = choose|i: int|
                    0 <= i < init.len() && is_candidate_for(
                        #[trigger] init[i],
                        declared,
                        modules,
                        m,
                    );
                assert(is_candidate_for(tables[i], declared, modules, m));
            } else {
                assert(is_candidate_for(tables[tables.len() - 1], declared, modules, m));
            }
        }
        if exists|i: int|
            0 <= i < tables.len() && is_candidate_for(#[trigger] tables[i], declared, modules, m) {
            let i = choose|i: int|
                0 <= i < tables.len() && is_candidate_for(
                    #[trigger] tables[i],
                    declared,
                    modules,
                    m,
                );
            if i < init.len() {
                assert(is_candidate_for(init[i], declared, modules, m));
            }
        }
    }
}

/// Whether a module owns a table or, where none does, is installed and gave it its name: the
/// table starts with the lower-case name of the module, underscores left out of both or kept
/// in both.
pub open spec fn is_candidate_for(
    table: Seq<char>,
    declared: Seq<TableSchema>,
    modules: Seq<Module>,
    m: Seq<char>,
) -> bool {
    match module_of_table(table, text::lowercase_of(table), declared) {
        Some(owner) => owner == m,
        None => exists|k: int|
            0 <= k < modules.len() && (#[trigger] modules[k]).name@ == m && (text::has_prefix(
                text::without_char(table, '_'),
                text::lowercase_of(text::without_char(m, '_')),
            ) || text::has_prefix(table, text::lowercase_of(m))),
    }
}

proof fn lemma_once_contains(list: Seq<Seq<char>>, t: Seq<char>, m: Seq<char>)
    ensures
        with_once(list, t).contains(m) <==> list.contains(m) || m == t,
{
    let out = with_once(list, t);
    if list.contains(m) {
        let k = choose|k: int| 0 <= k < list.len() && list[k] == m;
        assert(out[k] == m);
    }
    if !list.contains(t) {
        assert(out[out.len() - 1] == t);
    }
    if out.contains(m) && m != t {
        let k = choose|k: int| 0 <= k < out.len() && out[k] == m;
        assert(list[k] == m);
    }
}

proof fn lemma_named_contains(
    list: Seq<Seq<char>>,
    table: Seq<char>,
    modules: Seq<Module>,
    m: Seq<char>,
)
    ensures
        with_named_modules(list, table, modules).contains(m) <==> list.contains(m) || exists|k: int|
            0 <= k < modules.len() && (#[trigger] modules[k]).name@ == m && (text::has_prefix(
                text::without_char(table, '_'),
                text::lowercase_of(text::without_char(m, '_')),
            ) || text::has_prefix(table, text::lowercase_of(m))),
    decreases modules.len(),
{
    if modules.len() > 0 {
        let init = modules.drop_last();
        let name = modules.last().name@;
        lemma_named_contains(list, table, init, m);
        lemma_once_contains(with_named_modules(list, table, init), name, m);
        assert(forall|k: int| 0 <= k < init.len() ==> #[trigger] init[k] == modules[k]);
        assert(modules[modules.len() - 1].name@ == name);
        if exists|k: int|
            0 <= k < init.len() && (#[trigger] init[k]).name@ == m && (text::has_prefix(
                text::without_char(table, '_'),
                text::lowercase_of(text::without_char(m, '_')),
            ) || text::has_prefix(table, text::lowercase_of(m))) {
            let k = choose|k: int|
                0 <= k < init.len() && (#[trigger] init[k]).name@ == m && (text::has_prefix(
                    text::without_char(table, '_'),
                    text::lowercase_of(text::without_char(m, '_')),
                ) || text::has_prefix(table, text::lowercase_of(m)));
            assert(modules[k].name@ == m);
        }
        if exists|k: int|
            0 <= k < modules.len() && (#[trigger] modules[k]).name@ == m && (text::has_prefix(
                text::without_char(table, '_'),
                text::lowercase_of(text::without_char(m, '_')),
            ) || text::has_prefix(table, text::lowercase_of(m))) {
            let k = choose|k: int|
                0 <= k < modules.len() && (#[trigger] modules[k]).name@ == m && (text::has_prefix(
                    text::without_char(table, '_'),
                    text::lowercase_of(text::without_char(m, '_')),
                ) || text::has_prefix(table, text::lowercase_of(m)));
            if k < init.len() {
                assert(init[k].name@ == m);
            } else {
                assert(modules[k] == modules.last());
            }
        }
    }
}

/// A reference names exactly the plugins of candidate modules on a class of quotes, products
/// or orders, each once, in their order.
pub proof fn law_code_references(
    digest: QueryDigest,
    installation: MagentoInstallation,
    r: QueryCorrelation,
    line: Seq<char>,
)
    requires
        r@ == correlation_of(digest@.fingerprint, digest@.tables_involved, installation),
    ensures
        text::texts(r.matched_code_references@).contains(line) <==> exists|i: int|
            0 <= i < installation.plugins@.len() && ({
                let p = #[trigger] installation.plugins@[i];
                &&& text::texts(r.candidate_modules@).contains(p.module@)
                &&& text::contains_text(p.target_class@, "Quote"@) || text::contains_text(
                    p.target_class@,
                    "Product"@,
                ) || text::contains_text(p.target_class@, "Order"@)
                &&& line == "Plugin: "@ + p.plugin_class@ + " ("@ + p.source_file@ + ")"@
            }),
{
    lemma_references(installation.plugins@, text::texts(r.candidate_modules@), line);
}

proof fn lemma_references(plugins: Seq<Plugin>, modules: Seq<Seq<char>>, line: Seq<char>)
    ensures
        code_references(plugins, modules).contains(line) <==> exists|i: int|
            0 <= i < plugins.len() && is_reference(#[trigger] plugins[i], modules, line),
    decreases plugins.len(),
{
    if plugins.len() > 0 {
        let init = plugins.drop_last();
        let p = plugins.last();
        lemma_references(init, modules, line);
        let before = code_references(init, modules);
        let now = code_references(plugins, modules);
        assert(plugins[plugins.len() - 1] == p);
        if now.contains(line) {
            let k = choose|k: int| 0 <= k < now.len() && now[k] == line;
            if k < before.len() {
                assert(before[k] == line);
                let i = choose|i: int|
                    0 <= i < init.len() && is_reference(#[trigger] init[i], modules, line);
                assert(is_reference(plugins[i], modules, line));
            } else {
                assert(is_reference(plugins[plugins.len() - 1], modules, line));
            }
        }
        if exists|i: int| 0 <= i < plugins.len() && is_reference(#[trigger] plugins[i], modules, line) {
            let i = choose|i: int|
                0 <= i < plugins.len() && is_reference(#[trigger] plugins[i], modules, line);
            if i < init.len() {
                assert(is_reference(init[i], modules, line));
                let k = choose|k: int| 0 <= k < before.len() && before[k] == line;
                assert(now[k] == line);
            } else {
                assert(now[now.len() - 1] == line);
            }
        }
    }
}

/// Whether a plugin is referred to by a line.
pub open spec fn is_reference(p: Plugin, modules: Seq<Seq<char>>, line: Seq<char>) -> bool {
    &&& modules.contains(p.module@)
    &&& text::contains_text(p.target_class@, "Quote"@) || text::contains_text(
        p.target_class@,
        "Product"@,
    ) || text::contains_text(p.target_class@, "Order"@)
    &&& line == "Plugin: "@ + p.plugin_class@ + " ("@ + p.source_file@ + ")"@
}

/// The note names the modules and says whether the hot path is touched; the digest is kept.
pub proof fn law_correlation_note(
    digest: QueryDigest,
    installation: MagentoInstallation,
    r: QueryCorrelation,
)
    requires
        r@ == correlation_of(digest@.fingerprint, digest@.tables_involved, installation),
    ensures
        r.digest_fingerprint@ == digest.fingerprint@,
        text::texts(r.tables_involved@) == text::texts(digest.tables_involved@),
        r.candidate_modules@.len() == 0 ==> r.correlation_notes@
            == "Query operates on dynamic or untracked tables."@,
        r.candidate_modules@.len() > 0 && r.is_hot_path ==> r.correlation_notes@
            == "Query touches tables managed by: "@ + text::joined(
            text::texts(r.candidate_modules@),
            ", "@,
        ) + ". Hot path: "@ + "YES"@ + "."@,
        r.candidate_modules@.len() > 0 && !r.is_hot_path ==> r.correlation_notes@
            == "Query touches tables managed by: "@ + text::joined(
            text::texts(r.candidate_modules@),
            ", "@,
        ) + ". Hot path: "@ + "NO"@ + "."@,
{
    assert(text::texts(r.candidate_modules@).len() == r.candidate_modules@.len());
}

/// The tables of a statement are the names behind FROM, JOIN, UPDATE and INTO, in lower case,
/// without the keywords that may stand there.
pub proof fn law_tables_of_a_statement(sql: Seq<char>, t: Seq<char>)
    ensures
        tables_of_sql(sql).no_duplicates(),
        tables_of_sql(sql).contains(t) <==> {
            let found = patterns::groups_of(
                "(?i)\\b(?:from|join|update|into)\\s+[`\"]?([a-zA-Z0-9_]+)[`\"]?"@,
                sql,
            );
            &&& exists|i: int|
                0 <= i < found.len() && (#[trigger] found[i] matches Some(g) && text::lowercase_of(
                    g,
                ) == t)
            &&& t != "select"@ && t != "where"@ && t != "set"@ && t != "values"@
            &&& t != "dual"@ && t != "table"@ && t != "null"@ && t != "case"@
        },
{
    let found = patterns::groups_of(TABLE_TOKEN@, sql);
    law_tables_are_named_once(lowered_groups(found));
    lemma_lowered(found, t);
}

proof fn lemma_lowered(groups: Seq<Option<Seq<char>>>, t: Seq<char>)
    ensures
        lowered_groups(groups).contains(t) <==> exists|i: int|
            0 <= i < groups.len() && (#[trigger] groups[i] matches Some(g) && text::lowercase_of(g)
                == t),
    decreases groups.len(),
{
    if groups.len() > 0 {
        let init = groups.drop_last();
        lemma_lowered(init, t);
        let before = lowered_groups(init);
        let now = lowered_groups(groups);
        assert(groups[groups.len() - 1] == groups.last());
        if now.contains(t) {
            let k = choose|k: int| 0 <= k < now.len() && now[k] == t;
            if k < before.len() {
                assert(before[k] == t);
                let i = choose|i: int|
                    0 <= i < init.len() && (#[trigger] init[i] matches Some(g)
                        && text::lowercase_of(g) == t);
                assert(groups[i] == init[i]);
            }
        }
        if exists|i: int|
            0 <= i < groups.len() && (#[trigger] groups[i] matches Some(g) && text::lowercase_of(g)
                == t) {
            let i = choose|i: int|
                0 <= i < groups.len() && (#[trigger] groups[i] matches Some(g)
                    && text::lowercase_of(g) == t);
            if i < init.len() {
                assert(init[i] == groups[i]);
                let k = choose|k: int| 0 <= k < before.len() && before[k] == t;
                assert(now[k] == t);
            } else {
                assert(now[now.len() - 1] == t);
            }
        }
    }
}

} // verus!
