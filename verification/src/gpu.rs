//! GPU inventory readers. A platform inspection utility (invoked by the
//! unverified shell) reports installed display adapters as JSON on one
//! platform family and as CSV or JSON on the other; the readers here turn
//! that text into records, defensively: a missing field becomes a
//! placeholder or an absent value, malformed output becomes an empty
//! list, and nothing here ever fails.

use vstd::prelude::*;

use crate::jsonval::{
    json_as_array, json_as_str, json_as_u64, json_field_of, json_get, json_items_of, json_of,
    json_parse, json_str_field, json_str_of, json_u64_of,
};
use crate::platform::{Platform, ToolOutput, ToolView};
use crate::strutil::{
    dec_str, lemma_split_len, parse_u64_dec, parse_u64_spec, split_char, split_on, trim, trim_spec,
    u64_to_dec_string,
};

verus! {

/// One display adapter: its marketed name, its vendor, and its video
/// memory as the inspection utility printed it, when known.
#[derive(Clone, Debug, PartialEq, Eq)]
pub struct GpuInfo {
    pub name: String,
    pub vendor: String,
    pub vram: Option<String>,
}

/// The mathematical shape of a `GpuInfo`.
pub struct GpuView {
    pub name: Seq<char>,
    pub vendor: Seq<char>,
    pub vram: Option<Seq<char>>,
}

impl View for GpuInfo {
    type V = GpuView;

    open spec fn view(&self) -> GpuView {
        GpuView { name: self.name@, vendor: self.vendor@, vram: self.vram.deep_view() }
    }
}

impl DeepView for GpuInfo {
    type V = GpuView;

    open spec fn deep_view(&self) -> GpuView {
        self.view()
    }
}

/// A memory size in bytes rendered as whole mebibytes, the way the
/// inventory reports video memory.
pub open spec fn mb_label(bytes: u64) -> Seq<char> {
    dec_str((bytes as nat) / 1024 / 1024) + " MB"@
}

fn mb_string(bytes: u64) -> (s: String)
    ensures
        s@ == mb_label(bytes),
{
    let mut s = u64_to_dec_string(bytes / 1024 / 1024);
    s.append(" MB");
    s
}

/// The first of two fields of a JSON object, by key, trying the second
/// key only when the first is absent.
pub open spec fn first_field_of(v: serde_json::Value, k1: Seq<char>, k2: Seq<char>) -> Option<
    serde_json::Value,
> {
    if json_field_of(v, k1) is Some {
        json_field_of(v, k1)
    } else {
        json_field_of(v, k2)
    }
}

fn first_field<'a>(v: &'a serde_json::Value, k1: &str, k2: &str) -> (r: Option<
    &'a serde_json::Value,
>)
    ensures
        (r is Some) == (first_field_of(*v, k1@, k2@) is Some),
        r matches Some(f) ==> first_field_of(*v, k1@, k2@) == Some(*f),
{
    match json_get(v, k1) {
        Some(f) => Some(f),
        None => json_get(v, k2),
    }
}

/// The adapter record one entry of the platform JSON inventory describes:
/// the model (falling back to the entry's display name, then to a literal
/// placeholder), the vendor under either of its two keys, and the video
/// memory text when present.
pub open spec fn macos_gpu_of(d: serde_json::Value) -> GpuView {
    GpuView {
        name: match first_field_of(d, "sppci_model"@, "_name"@) {
            Some(f) => match json_str_of(f) {
                Some(s) => s,
                None => "Unknown GPU"@,
            },
            None => "Unknown GPU"@,
        },
        vendor: match first_field_of(d, "sppci_vendor"@, "spdisplays_vendor"@) {
            Some(f) => match json_str_of(f) {
                Some(s) => s,
                None => "Unknown"@,
            },
            None => "Unknown"@,
        },
        vram: match first_field_of(d, "sppci_vram"@, "spdisplays_vram"@) {
            Some(f) => json_str_of(f),
            None => None,
        },
    }
}

fn macos_gpu(d: &serde_json::Value) -> (g: GpuInfo)
    ensures
        g@ == macos_gpu_of(*d),
{
    let name: String = match first_field(d, "sppci_model", "_name") {
        Some(f) => match json_as_str(f) {
            Some(s) => s.to_owned(),
            None => String::from_str("Unknown GPU"),
        },
        None => String::from_str("Unknown GPU"),
    };
    let vendor: String = match first_field(d, "sppci_vendor", "spdisplays_vendor") {
        Some(f) => match json_as_str(f) {
            Some(s) => s.to_owned(),
            None => String::from_str("Unknown"),
        },
        None => String::from_str("Unknown"),
    };
    let vram: Option<String> = match first_field(d, "sppci_vram", "spdisplays_vram") {
        Some(f) => match json_as_str(f) {
            Some(s) => Some(s.to_owned()),
            None => None,
        },
        None => None,
    };
    GpuInfo { name, vendor, vram }
}

/// The adapters listed by the JSON inventory: the document's display
/// array mapped to records, and nothing at all when the text is not JSON
/// or carries no such array.
pub open spec fn macos_gpus_spec(s: Seq<char>) -> Seq<GpuView> {
    match json_of(s) {
        Some(doc) => match json_field_of(doc, "SPDisplaysDataType"@) {
            Some(arr) => match json_items_of(arr) {
                Some(items) => items.map_values(|d: serde_json::Value| macos_gpu_of(d)),
                None => Seq::empty(),
            },
            None => Seq::empty(),
        },
        None => Seq::empty(),
    }
}

/// Read the JSON display inventory. Malformed text, a missing display
/// section, or one that is not an array all yield an empty list.
pub fn parse_macos_gpu_json(s: &str) -> (r: Vec<GpuInfo>)
    ensures
        r.deep_view() == macos_gpus_spec(s@),
{
    let parsed = json_parse(s);
    match parsed {
        None => {
            let r: Vec<GpuInfo> = Vec::new();
            proof {
                assert(r.deep_view() =~= macos_gpus_spec(s@));
            }
            r
        },
        Some(doc) => {
            match json_get(&doc, "SPDisplaysDataType") {
                None => {
                    let r: Vec<GpuInfo> = Vec::new();
                    proof {
                        assert(r.deep_view() =~= macos_gpus_spec(s@));
                    }
                    r
                },
                Some(arr) => {
                    match json_as_array(arr) {
                        None => {
                            let r: Vec<GpuInfo> = Vec::new();
                            proof {
                                assert(r.deep_view() =~= macos_gpus_spec(s@));
                            }
                            r
                        },
                        Some(items) => {
                            let ghost model = items@.map_values(
                                |d: serde_json::Value| macos_gpu_of(d),
                            );
                            let mut gpus: Vec<GpuInfo> = Vec::new();
                            let mut i: usize = 0;
                            while i < items.len()
                                invariant
                                    0 <= i <= items@.len(),
                                    gpus.deep_view() =~= model.take(i as int),
                                    model == items@.map_values(
                                        |d: serde_json::Value| macos_gpu_of(d),
                                    ),
                                decreases items@.len() - i,
                            {
                                let g = macos_gpu(&items[i]);
                                gpus.push(g);
                                proof {
                                    assert(model[i as int] == macos_gpu_of(items@[i as int]));
                                    assert(gpus.deep_view().last() == g@);
                                    assert(gpus.deep_view().drop_last() =~= model.take(i as int));
                                    assert(gpus.deep_view() =~= model.take(i as int + 1));
                                }
                                i = i + 1;
                            }
                            proof {
                                assert(model.take(items@.len() as int) =~= model);
                                assert(gpus.deep_view() =~= macos_gpus_spec(s@));
                            }
                            gpus
                        },
                    }
                },
            }
        },
    }
}

/// A line with one trailing carriage return removed, the way the CSV
/// inventory terminates its rows.
pub open spec fn csv_line_clean(l: Seq<char>) -> Seq<char> {
    if l.len() > 0 && l.last() == '\r' {
        l.drop_last()
    } else {
        l
    }
}

fn strip_cr(l: &str) -> (r: String)
    ensures
        r@ == csv_line_clean(l@),
{
    let n = l.unicode_len();
    if n > 0 && l.get_char(n - 1) == '\r' {
        let r = l.substring_char(0, n - 1).to_owned();
        proof {
            assert(l@.subrange(0, n as int - 1) =~= l@.drop_last());
        }
        r
    } else {
        l.to_owned()
    }
}

/// The video memory label of a CSV size field: the field read as a plain
/// decimal byte count and rendered in mebibytes, absent when the field is
/// not a positive number.
pub open spec fn csv_vram(field: Seq<char>) -> Option<Seq<char>> {
    match parse_u64_spec(field) {
        Some(b) => if b > 0 {
            Some(mb_label(b))
        } else {
            None
        },
        None => None,
    }
}

/// The adapter record of one CSV row, if the row yields one: the row must
/// have at least three fields, and its third, trimmed, must be neither
/// empty nor the repeated column header.
pub open spec fn csv_row(line: Seq<char>) -> Option<GpuView> {
    let parts = split_on(line, ',');
    if parts.len() >= 3 {
        let name = trim_spec(parts[2]);
        if name.len() == 0 || name == "Name"@ {
            None
        } else {
            Some(GpuView { name, vendor: "Unknown"@, vram: csv_vram(parts[1]) })
        }
    } else {
        None
    }
}

/// The records of a sequence of CSV rows, in order, rows that yield none
/// skipped.
pub open spec fn csv_rows(lines: Seq<Seq<char>>) -> Seq<GpuView>
    decreases lines.len(),
{
    if lines.len() == 0 {
        Seq::empty()
    } else {
        csv_rows(lines.drop_last()) + (match csv_row(lines.last()) {
            Some(g) => seq![g],
            None => Seq::empty(),
        })
    }
}

/// The adapters listed by the CSV inventory: every line after the header
/// line, split on newlines with trailing carriage returns dropped, read
/// as a row.
pub open spec fn windows_gpu_csv_spec(s: Seq<char>) -> Seq<GpuView> {
    csv_rows(split_on(s, '\n').map_values(|l: Seq<char>| csv_line_clean(l)).skip(1))
}

/// Read the CSV display inventory: one adapter per data line, the header
/// line and malformed lines skipped, the size column rendered in
/// mebibytes when it is a positive byte count.
pub fn parse_windows_gpu_csv(s: &str) -> (r: Vec<GpuInfo>)
    ensures
        r.deep_view() == windows_gpu_csv_spec(s@),
{
    let lines = split_char(s, '\n');
    proof {
        lemma_split_len(s@, '\n');
    }
    let ghost clean = split_on(s@, '\n').map_values(|l: Seq<char>| csv_line_clean(l));
    let ghost rows = clean.skip(1);
    let mut gpus: Vec<GpuInfo> = Vec::new();
    let mut i: usize = 1;
    proof {
        assert(rows.take(0) =~= Seq::<Seq<char>>::empty());
        assert(gpus.deep_view() =~= csv_rows(rows.take(0)));
    }
    while i < lines.len()
        invariant
            1 <= i <= lines@.len(),
            lines.deep_view() == split_on(s@, '\n'),
            clean == split_on(s@, '\n').map_values(|l: Seq<char>| csv_line_clean(l)),
            rows == clean.skip(1),
            gpus.deep_view() =~= csv_rows(rows.take(i as int - 1)),
        decreases lines@.len() - i,
    {
        let line = strip_cr(lines[i].as_str());
        proof {
            assert(lines.deep_view()[i as int] == lines@[i as int]@);
            assert(line@ == clean[i as int]);
            assert(rows[i as int - 1] == clean[i as int]);
        }
        let parts = split_char(line.as_str(), ',');
        if parts.len() >= 3 {
            let name = trim(parts[2].as_str());
            proof {
                assert(parts.deep_view()[2] == parts@[2]@);
            }
            let header = String::from_str("Name");
            if !(name.unicode_len() == 0 || name == header) {
                let vram: Option<String> = match parse_u64_dec(parts[1].as_str()) {
                    Some(b) => if b > 0 {
                        Some(mb_string(b))
                    } else {
                        None
                    },
                    None => None,
                };
                proof {
                    assert(parts.deep_view()[1] == parts@[1]@);
                }
                let g = GpuInfo { name, vendor: String::from_str("Unknown"), vram };
                proof {
                    assert(csv_row(rows[i as int - 1]) == Some(g@));
                }
                gpus.push(g);
            }
        }
        proof {
            assert(rows.take(i as int).drop_last() =~= rows.take(i as int - 1));
            assert(rows.take(i as int).last() == rows[i as int - 1]);
            assert(gpus.deep_view() =~= csv_rows(rows.take(i as int)));
        }
        i = i + 1;
    }
    proof {
        assert(rows.take(lines@.len() - 1) =~= rows);
        assert(gpus.deep_view() =~= windows_gpu_csv_spec(s@));
    }
    gpus
}

/// The adapter record one entry of the fallback JSON inventory describes:
/// the name field (or a literal placeholder), an unknown vendor, and the
/// memory field rendered in mebibytes when it is a positive number.
pub open spec fn ps_gpu_of(d: serde_json::Value) -> GpuView {
    GpuView {
        name: match json_str_field(d, "Name"@) {
            Some(s) => s,
            None => "Unknown GPU"@,
        },
        vendor: "Unknown"@,
        vram: match json_field_of(d, "AdapterRAM"@) {
            Some(f) => match json_u64_of(f) {
                Some(b) => if b > 0 {
                    Some(mb_label(b))
                } else {
                    None
                },
                None => None,
            },
            None => None,
        },
    }
}

fn ps_gpu(d: &serde_json::Value) -> (g: GpuInfo)
    ensures
        g@ == ps_gpu_of(*d),
{
    let name: String = match json_get(d, "Name") {
        Some(f) => match json_as_str(f) {
            Some(s) => s.to_owned(),
            None => String::from_str("Unknown GPU"),
        },
        None => String::from_str("Unknown GPU"),
    };
    let vram: Option<String> = match json_get(d, "AdapterRAM") {
        Some(f) => match json_as_u64(f) {
            Some(b) => if b > 0 {
                Some(mb_string(b))
            } else {
                None
            },
            None => None,
        },
        None => None,
    };
    GpuInfo { name, vendor: String::from_str("Unknown"), vram }
}

/// The adapters listed by the fallback JSON inventory: the document's
/// entries when it is an array, the document itself as a single entry
/// otherwise, and nothing when the text is not JSON.
pub open spec fn windows_gpu_ps_spec(s: Seq<char>) -> Seq<GpuView> {
    match json_of(s) {
        Some(doc) => match json_items_of(doc) {
            Some(items) => items.map_values(|d: serde_json::Value| ps_gpu_of(d)),
            None => seq![ps_gpu_of(doc)],
        },
        None => Seq::empty(),
    }
}

/// Read the fallback JSON display inventory, which prints either one
/// adapter object or an array of them.
pub fn parse_windows_gpu_powershell(s: &str) -> (r: Vec<GpuInfo>)
    ensures
        r.deep_view() == windows_gpu_ps_spec(s@),
{
    let parsed = json_parse(s);
    match parsed {
        None => {
            let r: Vec<GpuInfo> = Vec::new();
            proof {
                assert(r.deep_view() =~= windows_gpu_ps_spec(s@));
            }
            r
        },
        Some(doc) => {
            match json_as_array(&doc) {
                Some(items) => {
                    let ghost model = items@.map_values(|d: serde_json::Value| ps_gpu_of(d));
                    let mut gpus: Vec<GpuInfo> = Vec::new();
                    let mut i: usize = 0;
                    while i < items.len()
                        invariant
                            0 <= i <= items@.len(),
                            gpus.deep_view() =~= model.take(i as int),
                            model == items@.map_values(|d: serde_json::Value| ps_gpu_of(d)),
                        decreases items@.len() - i,
                    {
                        let g = ps_gpu(&items[i]);
                        gpus.push(g);
                        proof {
                            assert(model[i as int] == ps_gpu_of(items@[i as int]));
                            assert(gpus.deep_view().last() == g@);
                            assert(gpus.deep_view().drop_last() =~= model.take(i as int));
                            assert(gpus.deep_view() =~= model.take(i as int + 1));
                        }
                        i = i + 1;
                    }
                    proof {
                        assert(model.take(items@.len() as int) =~= model);
                        assert(gpus.deep_view() =~= windows_gpu_ps_spec(s@));
                    }
                    gpus
                },
                None => {
                    let g = ps_gpu(&doc);
                    let mut gpus: Vec<GpuInfo> = Vec::new();
                    gpus.push(g);
                    proof {
                        assert(gpus.deep_view() =~= windows_gpu_ps_spec(s@));
                    }
                    gpus
                },
            }
        },
    }
}

/// What the JSON inventory platform reports for a given utility outcome.
pub open spec fn macos_gpus_of_tool(t: ToolView) -> Seq<GpuView> {
    match t {
        ToolView::Text(s) => macos_gpus_spec(s),
        _ => Seq::empty(),
    }
}

/// GPU identity on the JSON inventory platform: the utility's output
/// parsed, and an empty list when the utility could not be run or its
/// output was unreadable.
pub fn get_gpu_info_macos(tool: ToolOutput) -> (r: Vec<GpuInfo>)
    ensures
        r.deep_view() == macos_gpus_of_tool(tool@),
{
    match tool {
        ToolOutput::Text(s) => parse_macos_gpu_json(s.as_str()),
        _ => {
            let r: Vec<GpuInfo> = Vec::new();
            proof {
                assert(r.deep_view() =~= Seq::<GpuView>::empty());
            }
            r
        },
    }
}

/// What the fallback JSON inventory reports for a given utility outcome.
pub open spec fn ps_gpus_of_tool(t: ToolView) -> Seq<GpuView> {
    match t {
        ToolView::Text(s) => windows_gpu_ps_spec(s),
        _ => Seq::empty(),
    }
}

/// GPU identity through the fallback JSON inventory alone.
pub fn get_gpu_info_windows_powershell(tool: ToolOutput) -> (r: Vec<GpuInfo>)
    ensures
        r.deep_view() == ps_gpus_of_tool(tool@),
{
    match tool {
        ToolOutput::Text(s) => parse_windows_gpu_powershell(s.as_str()),
        _ => {
            let r: Vec<GpuInfo> = Vec::new();
            proof {
                assert(r.deep_view() =~= Seq::<GpuView>::empty());
            }
            r
        },
    }
}

/// What the CSV inventory platform reports: the CSV output when the
/// primary utility ran and was readable, the fallback JSON inventory when
/// the primary could not be run at all, and nothing when the primary ran
/// but its output was unreadable.
pub open spec fn windows_gpus_of_tools(wmic: ToolView, powershell: ToolView) -> Seq<GpuView> {
    match wmic {
        ToolView::Text(s) => windows_gpu_csv_spec(s),
        ToolView::Unreadable => Seq::empty(),
        ToolView::Unavailable => ps_gpus_of_tool(powershell),
    }
}

/// GPU identity on the CSV inventory platform, with the JSON fallback.
pub fn get_gpu_info_windows(wmic: ToolOutput, powershell: ToolOutput) -> (r: Vec<GpuInfo>)
    ensures
        r.deep_view() == windows_gpus_of_tools(wmic@, powershell@),
{
    match wmic {
        ToolOutput::Text(s) => parse_windows_gpu_csv(s.as_str()),
        ToolOutput::Unreadable => {
            let r: Vec<GpuInfo> = Vec::new();
            proof {
                assert(r.deep_view() =~= Seq::<GpuView>::empty());
            }
            r
        },
        ToolOutput::Unavailable => get_gpu_info_windows_powershell(powershell),
    }
}

/// What GPU identity a platform reports for the given utility outcomes.
pub open spec fn gpu_info_spec(platform: Platform, primary: ToolView, fallback: ToolView) -> Seq<
    GpuView,
> {
    match platform {
        Platform::MacOs => macos_gpus_of_tool(primary),
        Platform::Windows => windows_gpus_of_tools(primary, fallback),
        Platform::Other => Seq::empty(),
    }
}

/// GPU identity for the host platform. `primary` is the outcome of the
/// platform's inspection utility, `fallback` that of the CSV platform's
/// secondary utility (ignored elsewhere); a platform without a supported
/// utility reports no GPUs.
pub fn get_gpu_info(platform: Platform, primary: ToolOutput, fallback: ToolOutput) -> (r: Vec<
    GpuInfo,
>)
    ensures
        r.deep_view() == gpu_info_spec(platform, primary@, fallback@),
{
    match platform {
        Platform::MacOs => get_gpu_info_macos(primary),
        Platform::Windows => get_gpu_info_windows(primary, fallback),
        Platform::Other => {
            let r: Vec<GpuInfo> = Vec::new();
            proof {
                assert(r.deep_view() =~= Seq::<GpuView>::empty());
            }
            r
        },
    }
}

/// An inspection utility that could not be run, on either attempt, yields
/// an empty GPU list on every platform, never an error.
pub proof fn lemma_gpu_tool_unavailable(platform: Platform)
    ensures
        gpu_info_spec(platform, ToolView::Unavailable, ToolView::Unavailable) =~= Seq::<
            GpuView,
        >::empty(),
        gpu_info_spec(platform, ToolView::Unreadable, ToolView::Unreadable) =~= Seq::<
            GpuView,
        >::empty(),
{
}

/// Utility output that does not parse as JSON yields an empty GPU list on
/// the JSON inventory platform, and likewise through the fallback JSON
/// inventory of the CSV platform.
pub proof fn lemma_gpu_tool_unparseable(s: Seq<char>)
    requires
        json_of(s) is None,
    ensures
        gpu_info_spec(Platform::MacOs, ToolView::Text(s), ToolView::Unavailable) =~= Seq::<
            GpuView,
        >::empty(),
        gpu_info_spec(Platform::Windows, ToolView::Unavailable, ToolView::Text(s)) =~= Seq::<
            GpuView,
        >::empty(),
{
}

} // verus!
