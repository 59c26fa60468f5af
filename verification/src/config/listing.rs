use vstd::prelude::*;

use tiny_table::{Cell, Column, Table, TableStyle};

use crate::config::settings::{lemma_key_names, Config, ConfigCategory, ConfigKey};
use crate::config::{display_title, strip_ansi_sequences, without_ansi};
use crate::strings::{
    concat3, eq_ignore_ascii_case, join, join_strings, lines, lines_of, lowercase_of, owned,
    replace, replace_all, str_eq_ignore_ascii_case, str_views, string_views, to_lowercase, window,
};

verus! {

// ---------------------------------------------------------------------------
// The settings table
// ---------------------------------------------------------------------------

/// One setting's row of the settings table.
pub struct SettingRow {
    pub key: String,
    /// Present when descriptions are shown.
    pub description: Option<String>,
    pub current: String,
    pub default: String,
    /// Whether the current value differs from the default (it is highlighted).
    pub changed: bool,
}

/// The texts of a [`SettingRow`].
pub struct SettingRowView {
    pub key: Seq<char>,
    pub description: Option<Seq<char>>,
    pub current: Seq<char>,
    pub default: Seq<char>,
    pub changed: bool,
}

impl View for SettingRow {
    type V = SettingRowView;

    open spec fn view(&self) -> SettingRowView {
        SettingRowView {
            key: self.key@,
            description: match self.description {
                Some(d) => Some(d@),
                None => None,
            },
            current: self.current@,
            default: self.default@,
            changed: self.changed,
        }
    }
}

/// A line of the settings table: a section title or a setting's row.
pub enum TableLine {
    Section(String),
    Row(SettingRow),
}

/// The texts of a [`TableLine`].
pub enum TableLineView {
    Section(Seq<char>),
    Row(SettingRowView),
}

impl View for TableLine {
    type V = TableLineView;

    open spec fn view(&self) -> TableLineView {
        match self {
            TableLine::Section(t) => TableLineView::Section(t@),
            TableLine::Row(r) => TableLineView::Row(r@),
        }
    }
}

/// The views of a list of table lines.
pub open spec fn lines_view(v: Seq<TableLine>) -> Seq<TableLineView> {
    v.map_values(|l: TableLine| l@)
}

/// Whether the setting `k` belongs in the block of `section` (`None`: the settings outside
/// every section) under `filter`, which a key's name must equal up to ASCII case.
pub open spec fn keeps_key(
    k: ConfigKey,
    section: Option<ConfigCategory>,
    filter: Option<Seq<char>>,
) -> bool {
    &&& k.spec_category() == section
    &&& match filter {
        Some(v) => eq_ignore_ascii_case(k.spec_name(), v),
        None => true,
    }
}

/// The settings among `keys`, in order, that belong in the block of `section` under `filter`.
pub open spec fn select_keys(
    keys: Seq<ConfigKey>,
    section: Option<ConfigCategory>,
    filter: Option<Seq<char>>,
) -> Seq<ConfigKey>
    decreases keys.len(),
{
    if keys.len() == 0 {
        Seq::empty()
    } else {
        let prev = select_keys(keys.drop_last(), section, filter);
        if keeps_key(keys.last(), section, filter) {
            prev.push(keys.last())
        } else {
            prev
        }
    }
}

/// The settings, in order, that belong in the block of `section` under `filter`.
fn select(section: Option<ConfigCategory>, filter: &Option<String>) -> (r: Vec<ConfigKey>)
    ensures
        r@ == select_keys(ConfigKey::spec_all(), section, filter.deep_view()),
{
    let all = ConfigKey::all();
    let mut out: Vec<ConfigKey> = Vec::new();
    let mut i: usize = 0;
    proof {
        assert(all@.take(0) =~= Seq::<ConfigKey>::empty());
    }
    while i < all.len()
        invariant
            all@ == ConfigKey::spec_all(),
            i <= all@.len(),
            out@ == select_keys(all@.take(i as int), section, filter.deep_view()),
        decreases all@.len() - i,
    {
        let k = all[i];
        proof {
            assert(all@.take(i as int + 1).drop_last() =~= all@.take(i as int));
            assert(all@.take(i as int + 1).last() == k);
        }
        let in_section = k.category() == section;
        let matches = match filter {
            Some(v) => {
                assert(filter.deep_view() == Some(v@));
                str_eq_ignore_ascii_case(k.as_str(), v.as_str())
            },
            None => true,
        };
        if in_section && matches {
            out.push(k);
        }
        i = i + 1;
    }
    proof {
        assert(all@.take(all@.len() as int) =~= all@);
    }
    out
}

impl Config {
    /// The row of the setting `k`.
    pub open spec fn spec_row(self, k: ConfigKey, show_desc: bool) -> SettingRowView {
        SettingRowView {
            key: k.spec_name(),
            description: if show_desc {
                Some(Config::spec_description(k))
            } else {
                None
            },
            current: self.spec_value_text(k),
            default: Config::spec_default_text(k),
            changed: self.spec_value_text(k) != Config::spec_default_text(k),
        }
    }

    /// The lines of one block: its title (left out while filtering) and the rows of its
    /// settings; nothing when no setting belongs in it.
    pub open spec fn spec_block(
        self,
        section: Option<ConfigCategory>,
        title: Seq<char>,
        filter: Option<Seq<char>>,
        filtered: bool,
        show_desc: bool,
    ) -> Seq<TableLineView> {
        let keys = select_keys(ConfigKey::spec_all(), section, filter);
        if keys.len() == 0 {
            Seq::empty()
        } else {
            (if filtered {
                Seq::empty()
            } else {
                seq![TableLineView::Section(title)]
            }) + keys.map_values(|k: ConfigKey| TableLineView::Row(self.spec_row(k, show_desc)))
        }
    }

    /// The blocks of the given sections, in order.
    pub open spec fn spec_section_blocks(
        self,
        sections: Seq<ConfigCategory>,
        filter: Option<Seq<char>>,
        filtered: bool,
        show_desc: bool,
    ) -> Seq<TableLineView>
        decreases sections.len(),
    {
        if sections.len() == 0 {
            Seq::empty()
        } else {
            self.spec_section_blocks(sections.drop_last(), filter, filtered, show_desc)
                + self.spec_block(
                Some(sections.last()),
                display_title(sections.last().spec_name()),
                filter,
                filtered,
                show_desc,
            )
        }
    }

    /// The lines of the settings table: the block of each section in order, then a
    /// `General` block of the settings outside every section. A filter is lower-cased and
    /// keeps only the setting of that name (up to ASCII case); a non-empty filter also drops
    /// the block titles.
    pub open spec fn spec_table_lines(self, filter: Option<Seq<char>>, show_desc: bool) -> Seq<
        TableLineView,
    > {
        let lower = match filter {
            Some(f) => Some(lowercase_of(f)),
            None => None,
        };
        let filtered = match lower {
            Some(v) => v.len() > 0,
            None => false,
        };
        self.spec_section_blocks(ConfigCategory::spec_all(), lower, filtered, show_desc)
            + self.spec_block(None, "General"@, lower, filtered, show_desc)
    }

    fn row(&self, k: ConfigKey, show_desc: bool) -> (r: SettingRow)
        ensures
            r@ == self.spec_row(k, show_desc),
    {
        proof {
            lemma_key_names(k);
        }
        let current = self.get_value(k.as_str());
        let default = self.get_default_string(k);
        let changed = !(current == default);
        let description = if show_desc {
            Some(self.get_description(k.as_str()))
        } else {
            None
        };
        SettingRow { key: owned(k.as_str()), description, current, default, changed }
    }

    fn push_block(
        &self,
        out: &mut Vec<TableLine>,
        section: Option<ConfigCategory>,
        title: String,
        filter: &Option<String>,
        filtered: bool,
        show_desc: bool,
    )
        ensures
            lines_view(final(out)@) == lines_view(old(out)@) + self.spec_block(
                section,
                title@,
                filter.deep_view(),
                filtered,
                show_desc,
            ),
    {
        let keys = select(section, filter);
        let ghost start = lines_view(out@);
        if keys.len() == 0 {
            proof {
                assert(lines_view(out@) =~= start + Seq::<TableLineView>::empty());
            }
            return;
        }
        let ghost head = if filtered {
            Seq::<TableLineView>::empty()
        } else {
            seq![TableLineView::Section(title@)]
        };
        if !filtered {
            out.push(TableLine::Section(title));
        }
        proof {
            assert(lines_view(out@) =~= start + head);
        }
        let mut i: usize = 0;
        while i < keys.len()
            invariant
                i <= keys@.len(),
                lines_view(out@) =~= start + head + keys@.take(i as int).map_values(
                    |k: ConfigKey| TableLineView::Row(self.spec_row(k, show_desc)),
                ),
            decreases keys@.len() - i,
        {
            let ghost before = lines_view(out@);
            let line = TableLine::Row(self.row(keys[i], show_desc));
            out.push(line);
            proof {
                assert(lines_view(out@) =~= before.push(line@));
                assert(keys@.take(i as int + 1).map_values(
                    |k: ConfigKey| TableLineView::Row(self.spec_row(k, show_desc)),
                ) =~= keys@.take(i as int).map_values(
                    |k: ConfigKey| TableLineView::Row(self.spec_row(k, show_desc)),
                ).push(TableLineView::Row(self.spec_row(keys@[i as int], show_desc))));
            }
            i = i + 1;
        }
        proof {
            assert(keys@.take(keys@.len() as int) =~= keys@);
        }
    }

    /// The lines of the settings table, for a filter (a setting's name) and with or without
    /// descriptions.
    pub fn table_lines(&self, filter: Option<&str>, show_desc: bool) -> (r: Vec<TableLine>)
        ensures
            lines_view(r@) == self.spec_table_lines(
                match filter {
                    Some(f) => Some(f@),
                    None => None,
                },
                show_desc,
            ),
    {
        let lower: Option<String> = match filter {
            Some(f) => Some(to_lowercase(f)),
            None => None,
        };
        let filtered = match &lower {
            Some(v) => v.as_str().unicode_len() > 0,
            None => false,
        };
        let ghost lv = lower.deep_view();
        let mut out: Vec<TableLine> = Vec::new();
        let sections = ConfigCategory::all();
        let mut i: usize = 0;
        proof {
            assert(lines_view(out@) =~= Seq::<TableLineView>::empty());
            assert(sections@.take(0) =~= Seq::<ConfigCategory>::empty());
        }
        while i < sections.len()
            invariant
                sections@ == ConfigCategory::spec_all(),
                i <= sections@.len(),
                lv == lower.deep_view(),
                lines_view(out@) == self.spec_section_blocks(
                    sections@.take(i as int),
                    lv,
                    filtered,
                    show_desc,
                ),
            decreases sections@.len() - i,
        {
            let c = sections[i];
            proof {
                assert(sections@.take(i as int + 1).drop_last() =~= sections@.take(i as int));
                assert(sections@.take(i as int + 1).last() == c);
            }
            self.push_block(&mut out, Some(c), c.display_name(), &lower, filtered, show_desc);
            i = i + 1;
        }
        proof {
            assert(sections@.take(sections@.len() as int) =~= sections@);
        }
        self.push_block(&mut out, None, owned("General"), &lower, filtered, show_desc);
        out
    }
}


// ---------------------------------------------------------------------------
// The settings as Markdown
// ---------------------------------------------------------------------------

/// The text that `tiny_table` renders (`Table::render`) for a table with the given
/// header texts and rows, each cell holding its text, drawn in the border style that
/// `TableStyle::from_string` reads from `style` (the Unicode style when it reads none).
/// No column is given a fractional or filling width, so the terminal's size plays no part.
pub uninterp spec fn rendered_table(
    style: Seq<char>,
    headers: Seq<Seq<char>>,
    rows: Seq<Seq<Seq<char>>>,
) -> Seq<char>;

/// Renders a table with `tiny_table`; its text is named `rendered_table`. Beside that name
/// it states one fact of `Table::render`: a table with columns is drawn between a top and a
/// bottom rule, each a line of its own, so it has at least two lines.
#[verifier::external_body]
fn render_table(style: &str, headers: &Vec<String>, rows: &Vec<Vec<String>>) -> (r: String)
    ensures
        r@ == rendered_table(style@, headers.deep_view(), rows.deep_view()),
        headers@.len() > 0 ==> lines_of(r@).len() >= 2,
{
    let style = TableStyle::from_string(style).unwrap_or(TableStyle::unicode());
    let columns: Vec<Column> = headers.iter().map(|h| Column::new(h.as_str())).collect();
    let mut table = Table::with_columns(columns).with_style(style);
    for row in rows {
        table.add_row(row.iter().map(|c| Cell::new(c)).collect());
    }
    table.render()
}

/// The border style of the Markdown tables: pipes for the sides and dashes for the rules.
pub open spec fn markdown_style() -> Seq<char> {
    "||||-||||||"@
}

/// The header texts of the Markdown tables.
pub open spec fn markdown_headers() -> Seq<Seq<char>> {
    seq!["Setting"@, "Description"@, "Default"@]
}

/// A setting's Markdown row: its name and default as code, and its description.
pub open spec fn markdown_row(k: ConfigKey) -> Seq<Seq<char>> {
    seq!["`"@ + k.spec_name() + "`"@, Config::spec_description(k), "`"@ + Config::spec_default_text(k) + "`"@]
}

/// In every Markdown row the cell under each header holds what that header names: under
/// `Setting` the setting's name as code, under `Description` its description, and under
/// `Default` its default text as code.
pub proof fn lemma_markdown_columns(k: ConfigKey, i: int)
    requires
        0 <= i < markdown_headers().len(),
    ensures
        markdown_headers().len() == 3,
        markdown_row(k).len() == markdown_headers().len(),
        markdown_headers()[i] == "Setting"@ ==> markdown_row(k)[i] == "`"@ + k.spec_name() + "`"@,
        markdown_headers()[i] == "Description"@ ==> markdown_row(k)[i] == Config::spec_description(
            k,
        ),
        markdown_headers()[i] == "Default"@ ==> markdown_row(k)[i] == "`"@ + Config::spec_default_text(
            k,
        ) + "`"@,
{
    reveal_strlit("Setting");
    reveal_strlit("Description");
    reveal_strlit("Default");
    assert("Setting"@[0] != "Description"@[0]);
    assert("Setting"@[0] != "Default"@[0]);
    assert("Description"@.len() != "Default"@.len());
}

/// The Markdown rows of the given settings.
pub open spec fn markdown_rows(keys: Seq<ConfigKey>) -> Seq<Seq<Seq<char>>> {
    keys.map_values(|k: ConfigKey| markdown_row(k))
}

/// A rendered table made into Markdown: its first and last lines dropped, ANSI escapes
/// removed, and the rule joints `|-` and `-|` turned into `| ` and ` |`.
pub open spec fn markdown_body(rendered: Seq<char>) -> Seq<char> {
    let ls = lines_of(rendered);
    let inner = join(window(ls, 1, ls.len() - 2), "\n"@);
    replace_all(replace_all(without_ansi(inner), "|-"@, "| "@), "-|"@, " |"@)
}

/// One Markdown section: a `####` heading and the table of its settings.
pub open spec fn markdown_section(title: Seq<char>, keys: Seq<ConfigKey>) -> Seq<char> {
    "#### "@ + title + "\n\n"@ + markdown_body(
        rendered_table(markdown_style(), markdown_headers(), markdown_rows(keys)),
    )
}

/// The titled key lists of the given sections that have settings, in order.
pub open spec fn markdown_tables(sections: Seq<ConfigCategory>) -> Seq<(Seq<char>, Seq<ConfigKey>)>
    decreases sections.len(),
{
    if sections.len() == 0 {
        Seq::empty()
    } else {
        let prev = markdown_tables(sections.drop_last());
        let c = sections.last();
        if c.spec_keys().len() == 0 {
            prev
        } else {
            prev.push((display_title(c.spec_name()), c.spec_keys()))
        }
    }
}

/// All Markdown tables: a `General` one for the settings outside every section, if any,
/// then one for each section that has settings.
pub open spec fn all_markdown_tables() -> Seq<(Seq<char>, Seq<ConfigKey>)> {
    let roots = select_keys(ConfigKey::spec_all(), None, None);
    let sections = markdown_tables(ConfigCategory::spec_all());
    if roots.len() > 0 {
        seq![("General"@, roots)] + sections
    } else {
        sections
    }
}

/// The settings documented in Markdown: one section per table, separated by blank lines.
pub open spec fn markdown_text() -> Seq<char> {
    join(
        all_markdown_tables().map_values(
            |t: (Seq<char>, Seq<ConfigKey>)| markdown_section(t.0, t.1),
        ),
        "\n\n"@,
    )
}

fn markdown_cells(keys: &Vec<ConfigKey>) -> (r: Vec<Vec<String>>)
    ensures
        r.deep_view() == markdown_rows(keys@),
{
    let mut rows: Vec<Vec<String>> = Vec::new();
    let mut i: usize = 0;
    while i < keys.len()
        invariant
            i <= keys@.len(),
            rows@.len() == i,
            forall|j: int| 0 <= j < i ==> #[trigger] rows@[j].deep_view() == markdown_row(keys@[j]),
        decreases keys@.len() - i,
    {
        let k = keys[i];
        proof {
            lemma_key_names(k);
        }
        let mut row: Vec<String> = Vec::new();
        row.push(concat3("`", k.as_str(), "`"));
        let empty = Config { ..Default::default() };
        row.push(empty.get_description(k.as_str()));
        let d = empty.get_default_string(k);
        row.push(concat3("`", d.as_str(), "`"));
        proof {
            assert(row.deep_view() =~= markdown_row(k));
        }
        rows.push(row);
        i = i + 1;
    }
    proof {
        assert(rows.deep_view() =~= markdown_rows(keys@));
    }
    rows
}

/// A rendered table made into Markdown.
fn markdown_body_of(rendered: &str) -> (r: String)
    requires
        lines_of(rendered@).len() >= 2,
    ensures
        r@ == markdown_body(rendered@),
{
    let ls = lines(rendered);
    let count = ls.len();
    let mut inner_lines: Vec<String> = Vec::new();
    let mut i: usize = 1;
    while i < count - 1
        invariant
            str_views(ls@) == lines_of(rendered@),
            count == ls@.len(),
            count >= 2,
            1 <= i <= count - 1,
            string_views(inner_lines@) =~= str_views(ls@).subrange(1, i as int),
        decreases count - i,
    {
        let ghost before = string_views(inner_lines@);
        inner_lines.push(owned(ls[i]));
        proof {
            assert(string_views(inner_lines@) =~= before.push(ls@[i as int]@));
        }
        i = i + 1;
    }
    proof {
        let v = str_views(ls@);
        assert(window(v, 1, v.len() - 2) =~= v.subrange(1, count - 1));
    }
    let inner = join_strings(&inner_lines, "\n");
    let plain = strip_ansi_sequences(inner.as_str());
    proof {
        reveal_strlit("|-");
        reveal_strlit("-|");
    }
    let step = replace(plain.as_str(), "|-", "| ");
    replace(step.as_str(), "-|", " |")
}

/// One Markdown section.
fn markdown_section_of(title: &str, keys: &Vec<ConfigKey>) -> (r: String)
    ensures
        r@ == markdown_section(title@, keys@),
{
    let headers: Vec<String> = vec![owned("Setting"), owned("Description"), owned("Default")];
    proof {
        assert(headers.deep_view() =~= markdown_headers());
    }
    let rows = markdown_cells(keys);
    let rendered = render_table("||||-||||||", &headers, &rows);
    let body = markdown_body_of(rendered.as_str());
    let mut out = concat3("#### ", title, "\n\n");
    out.append(body.as_str());
    out
}

impl Config {
    /// The settings documented in Markdown: for each section (and for the settings outside
    /// every section, first, under `General`) a `####` heading and a table of each
    /// setting's name, description and default.
    pub fn markdown_table(&self) -> (r: String)
        ensures
            r@ == markdown_text(),
    {
        let mut tables: Vec<(String, Vec<ConfigKey>)> = Vec::new();
        let sections = ConfigCategory::all();
        let mut i: usize = 0;
        proof {
            assert(sections@.take(0) =~= Seq::<ConfigCategory>::empty());
        }
        while i < sections.len()
            invariant
                sections@ == ConfigCategory::spec_all(),
                i <= sections@.len(),
                tables@.len() == markdown_tables(sections@.take(i as int)).len(),
                forall|j: int|
                    0 <= j < tables@.len() ==> #[trigger] tables@[j].0@ == markdown_tables(
                        sections@.take(i as int),
                    )[j].0 && tables@[j].1@ == markdown_tables(sections@.take(i as int))[j].1,
            decreases sections@.len() - i,
        {
            let c = sections[i];
            proof {
                assert(sections@.take(i as int + 1).drop_last() =~= sections@.take(i as int));
                assert(sections@.take(i as int + 1).last() == c);
            }
            let keys = c.keys();
            if keys.len() > 0 {
                tables.push((c.display_name(), keys));
            }
            i = i + 1;
        }
        proof {
            assert(sections@.take(sections@.len() as int) =~= sections@);
        }
        let roots = select(None, &None);
        let ghost expected = all_markdown_tables();
        if roots.len() > 0 {
            tables.insert(0, (owned("General"), roots));
        }
        proof {
            assert(tables@.len() == expected.len());
            assert forall|j: int| 0 <= j < tables@.len() implies #[trigger] tables@[j].0@
                == expected[j].0 && tables@[j].1@ == expected[j].1 by {
                if roots@.len() > 0 && j > 0 {
                    assert(expected[j] == markdown_tables(ConfigCategory::spec_all())[j - 1]);
                }
            }
        }
        let mut parts: Vec<String> = Vec::new();
        let mut j: usize = 0;
        while j < tables.len()
            invariant
                j <= tables@.len(),
                tables@.len() == expected.len(),
                forall|m: int|
                    0 <= m < tables@.len() ==> #[trigger] tables@[m].0@ == expected[m].0
                        && tables@[m].1@ == expected[m].1,
                parts@.len() == j,
                forall|m: int|
                    0 <= m < j ==> #[trigger] parts@[m]@ == markdown_section(
                        expected[m].0,
                        expected[m].1,
                    ),
            decreases tables@.len() - j,
        {
            let section = markdown_section_of(tables[j].0.as_str(), &tables[j].1);
            parts.push(section);
            j = j + 1;
        }
        proof {
            assert(string_views(parts@) =~= expected.map_values(
                |t: (Seq<char>, Seq<ConfigKey>)| markdown_section(t.0, t.1),
            ));
        }
        join_strings(&parts, "\n\n")
    }
}

} // verus!
