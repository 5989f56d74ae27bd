//! The section extractor. One aggregated blob of console output is cut at
//! its known markers into a module-option region, an optional payload
//! name and payload-option region, and an exploit-target region; each
//! region's table is then tokenized into typed records. Every failure is a
//! typed error carrying the offending text; nothing here panics.
use vstd::prelude::*;

use crate::records::{ListingEntry, ParamModel, Parameter};
use crate::table::{
    parse_listing_rows, parse_param_rows, table_listing, table_params, tokenize_row, tokens_of,
    Section,
};
use crate::text::{
    find_pat, first_match, lemma_first_match_props, lemma_match_implies_found, match_at,
};

verus! {

/// Marker opening the payload-option table and carrying the payload name.
pub open spec fn payload_marker() -> Seq<char> {
    "Payload options ("@
}

/// End of the payload name inside the payload marker's parentheses.
pub open spec fn payload_name_end() -> Seq<char> {
    "):"@
}

/// Marker opening the exploit-target table.
pub open spec fn target_marker() -> Seq<char> {
    "Exploit target:"@
}

/// Header separator of an option table, newline form.
pub open spec fn header_sep_nl() -> Seq<char> {
    " -----------\n"@
}

/// Header separator of an option table, padded form.
pub open spec fn header_sep_sp() -> Seq<char> {
    " ----------- "@
}

/// Header separator of the target table, newline form.
pub open spec fn target_sep_nl() -> Seq<char> {
    " ----\n"@
}

/// Header separator of the target table, padded form.
pub open spec fn target_sep_sp() -> Seq<char> {
    " ---- \n"@
}

/// Why a blob failed to parse.
#[derive(Debug, Clone, Copy, PartialEq, Eq, Structural)]
pub enum ParseErrorKind {
    /// No run of blank lines ends the exploit-target region.
    MissingTargetEnd,
    /// The exploit-target marker is absent.
    MissingExploitTarget,
    /// The payload marker is never closed.
    MissingPayloadEnd,
    /// The payload-option region has no header separator.
    MissingPayloadSeparator,
    /// The exploit-target region has no header separator.
    MissingTargetSeparator,
    /// The located markers stand in an impossible order.
    RegionOutOfBounds,
}

/// Spec-level image of a [`ParseError`].
pub ghost struct ParseErrorModel {
    pub kind: ParseErrorKind,
    pub input: Seq<char>,
}

/// A structured parse failure: what went wrong, and the text it went
/// wrong on.
#[derive(Debug, Clone)]
pub struct ParseError {
    pub kind: ParseErrorKind,
    pub input: String,
}

impl View for ParseError {
    type V = ParseErrorModel;

    open spec fn view(&self) -> ParseErrorModel {
        ParseErrorModel { kind: self.kind, input: self.input@ }
    }
}

impl DeepView for ParseError {
    type V = ParseErrorModel;

    open spec fn deep_view(&self) -> ParseErrorModel {
        self.view()
    }
}

/// The wording of each failure kind.
pub open spec fn kind_text(kind: ParseErrorKind) -> Seq<char> {
    match kind {
        ParseErrorKind::MissingTargetEnd => "no blank run ends the target region"@,
        ParseErrorKind::MissingExploitTarget => "no exploit target marker"@,
        ParseErrorKind::MissingPayloadEnd => "payload marker never closed"@,
        ParseErrorKind::MissingPayloadSeparator => "no payload option separator"@,
        ParseErrorKind::MissingTargetSeparator => "no exploit target separator"@,
        ParseErrorKind::RegionOutOfBounds => "markers out of order"@,
    }
}

impl ParseError {
    /// A human-readable description of the failure.
    pub fn describe(&self) -> (d: String)
        ensures
            d@ == kind_text(self.kind),
    {
        match self.kind {
            ParseErrorKind::MissingTargetEnd => String::from_str(
                "no blank run ends the target region",
            ),
            ParseErrorKind::MissingExploitTarget => String::from_str("no exploit target marker"),
            ParseErrorKind::MissingPayloadEnd => String::from_str("payload marker never closed"),
            ParseErrorKind::MissingPayloadSeparator => String::from_str(
                "no payload option separator",
            ),
            ParseErrorKind::MissingTargetSeparator => String::from_str(
                "no exploit target separator",
            ),
            ParseErrorKind::RegionOutOfBounds => String::from_str("markers out of order"),
        }
    }
}

/// Spec-level image of the three regions a blob is cut into.
pub ghost struct RegionsModel {
    pub module_region: Seq<char>,
    pub payload_name: Seq<char>,
    pub payload_region: Seq<char>,
    pub target_region: Seq<char>,
    pub has_payload: bool,
}

/// Position just past the first blank run ending the target region:
/// a run of four newlines, or failing that three.
pub open spec fn blank_run_pos(blob: Seq<char>) -> Option<int> {
    let e4 = first_match(blob, "\n\n\n\n"@);
    if e4 is Some {
        e4
    } else {
        first_match(blob, "\n\n\n"@)
    }
}

/// Cut the blob into its regions at the known markers. Offsets that would
/// slice past the blob or in the wrong order are reported, never acted on.
pub open spec fn slice_regions(blob: Seq<char>) -> Result<RegionsModel, ParseErrorModel> {
    match blank_run_pos(blob) {
        None => Err(ParseErrorModel { kind: ParseErrorKind::MissingTargetEnd, input: blob }),
        Some(e) => match first_match(blob, payload_marker()) {
            None => match first_match(blob, target_marker()) {
                None => Err(
                    ParseErrorModel { kind: ParseErrorKind::MissingExploitTarget, input: blob },
                ),
                Some(x) => if x <= e {
                    Ok(RegionsModel {
                        module_region: blob.subrange(0, x),
                        payload_name: Seq::empty(),
                        payload_region: Seq::empty(),
                        target_region: blob.subrange(x, e),
                        has_payload: false,
                    })
                } else {
                    Err(ParseErrorModel { kind: ParseErrorKind::RegionOutOfBounds, input: blob })
                },
            },
            Some(p) => {
                let tail = blob.subrange(p, blob.len() as int);
                match first_match(tail, payload_name_end()) {
                    None => Err(
                        ParseErrorModel { kind: ParseErrorKind::MissingPayloadEnd, input: blob },
                    ),
                    Some(pe) => match first_match(tail, target_marker()) {
                        None => Err(
                            ParseErrorModel {
                                kind: ParseErrorKind::MissingExploitTarget,
                                input: blob,
                            },
                        ),
                        Some(x) => if payload_marker().len() <= pe && pe <= x && p + x
                            + target_marker().len() <= e {
                            Ok(RegionsModel {
                                module_region: blob.subrange(0, p),
                                payload_name: blob.subrange(
                                    p + payload_marker().len(),
                                    p + pe,
                                ),
                                payload_region: blob.subrange(p + pe, p + x),
                                target_region: blob.subrange(
                                    p + x + target_marker().len(),
                                    e,
                                ),
                                has_payload: true,
                            })
                        } else {
                            Err(
                                ParseErrorModel {
                                    kind: ParseErrorKind::RegionOutOfBounds,
                                    input: blob,
                                },
                            )
                        },
                    },
                }
            },
        },
    }
}

/// Position just past an option table's header separator, if any.
pub open spec fn table_start(region: Seq<char>) -> Option<int> {
    match first_match(region, header_sep_nl()) {
        Some(i) => Some(i + header_sep_nl().len() as int),
        None => match first_match(region, header_sep_sp()) {
            Some(i) => Some(i + header_sep_sp().len() as int),
            None => None,
        },
    }
}

/// Position just past the target table's header separator, if any.
pub open spec fn target_start(region: Seq<char>) -> Option<int> {
    match first_match(region, target_sep_nl()) {
        Some(i) => Some(i + target_sep_nl().len() as int),
        None => match first_match(region, target_sep_sp()) {
            Some(i) => Some(i + target_sep_sp().len() as int),
            None => None,
        },
    }
}

/// Spec-level image of an [`Extraction`].
pub ghost struct ExtractionModel {
    pub payload: Seq<char>,
    pub options: Option<Seq<ParamModel>>,
    pub payload_options: Option<Seq<ParamModel>>,
    pub targets: Seq<Seq<char>>,
}

/// Everything one `show options` blob says about a module: the payload
/// name (empty when the module has none), its option table (absent when
/// the module prints none), the payload's option table, and the flat list
/// of target tokens.
#[derive(Debug, Clone)]
pub struct Extraction {
    pub payload: String,
    pub options: Option<Vec<Parameter>>,
    pub payload_options: Option<Vec<Parameter>>,
    pub targets: Vec<String>,
}

impl View for Extraction {
    type V = ExtractionModel;

    open spec fn view(&self) -> ExtractionModel {
        ExtractionModel {
            payload: self.payload@,
            options: match self.options {
                Some(v) => Some(v.deep_view()),
                None => None,
            },
            payload_options: match self.payload_options {
                Some(v) => Some(v.deep_view()),
                None => None,
            },
            targets: self.targets.deep_view(),
        }
    }
}

/// What the sliced regions yield: the target table must have its
/// separator; the module table's separator is optional (no module
/// options is not an error); a non-empty payload region must have its
/// separator too.
pub open spec fn assemble_spec(rg: RegionsModel) -> Result<ExtractionModel, ParseErrorModel> {
    match target_start(rg.target_region) {
        None => Err(
            ParseErrorModel {
                kind: ParseErrorKind::MissingTargetSeparator,
                input: rg.target_region,
            },
        ),
        Some(t) => {
            let targets = tokens_of(
                rg.target_region.subrange(t, rg.target_region.len() as int),
            );
            let options = match table_start(rg.module_region) {
                None => None,
                Some(m) => Some(
                    table_params(rg.module_region.subrange(m, rg.module_region.len() as int)),
                ),
            };
            if rg.has_payload && rg.payload_region.len() > 0 {
                match table_start(rg.payload_region) {
                    None => Err(
                        ParseErrorModel {
                            kind: ParseErrorKind::MissingPayloadSeparator,
                            input: rg.payload_region,
                        },
                    ),
                    Some(q) => Ok(
                        ExtractionModel {
                            payload: rg.payload_name,
                            options,
                            payload_options: Some(
                                table_params(
                                    rg.payload_region.subrange(
                                        q,
                                        rg.payload_region.len() as int,
                                    ),
                                ),
                            ),
                            targets,
                        },
                    ),
                }
            } else {
                Ok(
                    ExtractionModel {
                        payload: rg.payload_name,
                        options,
                        payload_options: None,
                        targets,
                    },
                )
            }
        },
    }
}

/// The whole extractor, as one function of the blob.
pub open spec fn extract_spec(blob: Seq<char>) -> Result<ExtractionModel, ParseErrorModel> {
    match slice_regions(blob) {
        Err(e) => Err(e),
        Ok(rg) => assemble_spec(rg),
    }
}

/// Find the end of the blank run closing the target region.
fn find_blank_run(blob: &str) -> (r: Option<usize>)
    ensures
        match r {
            Some(i) => blank_run_pos(blob@) == Some(i as int) && i + 3 <= blob@.len(),
            None => blank_run_pos(blob@) is None,
        },
{
    let run4 = "\n\n\n\n";
    let run3 = "\n\n\n";
    match find_pat(blob, run4) {
        Some(i) => {
            proof {
                lemma_first_match_props(blob@, run4@, 0);
                proof_literal_run_lens();
            }
            Some(i)
        },
        None => match find_pat(blob, run3) {
            Some(i) => {
                proof {
                    lemma_first_match_props(blob@, run3@, 0);
                    proof_literal_run_lens();
                }
                Some(i)
            },
            None => None,
        },
    }
}

proof fn proof_literal_run_lens()
    ensures
        "\n\n\n\n"@.len() == 4,
        "\n\n\n"@.len() == 3,
        forall|k: int| 0 <= k < 4 ==> "\n\n\n\n"@[k] == '\n',
        forall|k: int| 0 <= k < 3 ==> "\n\n\n"@[k] == '\n',
{
    reveal_strlit("\n\n\n\n");
    reveal_strlit("\n\n\n");
}

/// Find the option-table header separator inside a region.
fn find_table_start(region: &str) -> (r: Option<usize>)
    ensures
        match r {
            Some(m) => table_start(region@) == Some(m as int) && m <= region@.len(),
            None => table_start(region@) is None,
        },
{
    let n = region.unicode_len();
    let sep1 = " -----------\n";
    let sep2 = " ----------- ";
    match find_pat(region, sep1) {
        Some(i) => {
            proof {
                lemma_first_match_props(region@, sep1@, 0);
            }
            Some(i + sep1.unicode_len())
        },
        None => match find_pat(region, sep2) {
            Some(i) => {
                proof {
                    lemma_first_match_props(region@, sep2@, 0);
                }
                Some(i + sep2.unicode_len())
            },
            None => None,
        },
    }
}

/// Find the target-table header separator inside a region.
fn find_target_start(region: &str) -> (r: Option<usize>)
    ensures
        match r {
            Some(t) => target_start(region@) == Some(t as int) && t <= region@.len(),
            None => target_start(region@) is None,
        },
{
    let n = region.unicode_len();
    let sep1 = " ----\n";
    let sep2 = " ---- \n";
    match find_pat(region, sep1) {
        Some(i) => {
            proof {
                lemma_first_match_props(region@, sep1@, 0);
            }
            Some(i + sep1.unicode_len())
        },
        None => match find_pat(region, sep2) {
            Some(i) => {
                proof {
                    lemma_first_match_props(region@, sep2@, 0);
                }
                Some(i + sep2.unicode_len())
            },
            None => None,
        },
    }
}

/// Parse the sliced regions into an [`Extraction`].
fn assemble(
    module_region: &str,
    payload_name: &str,
    payload_region: &str,
    target_region: &str,
    has_payload: bool,
) -> (r: Result<Extraction, ParseError>)
    ensures
        ({
            let rg = RegionsModel {
                module_region: module_region@,
                payload_name: payload_name@,
                payload_region: payload_region@,
                target_region: target_region@,
                has_payload: has_payload,
            };
            match r {
                Ok(x) => assemble_spec(rg) == Ok::<ExtractionModel, ParseErrorModel>(x@),
                Err(e) => assemble_spec(rg) == Err::<ExtractionModel, ParseErrorModel>(e@),
            }
        }),
{
    let tn = target_region.unicode_len();
    match find_target_start(target_region) {
        None => Err(
            ParseError {
                kind: ParseErrorKind::MissingTargetSeparator,
                input: String::from_str(target_region),
            },
        ),
        Some(t) => {
            let target_tail = target_region.substring_char(t, tn);
            let targets = tokenize_row(target_tail);
            let mn = module_region.unicode_len();
            let options = match find_table_start(module_region) {
                None => None,
                Some(m) => Some(parse_param_table_str(module_region.substring_char(m, mn))),
            };
            if has_payload && payload_region.unicode_len() > 0 {
                let pn = payload_region.unicode_len();
                match find_table_start(payload_region) {
                    None => Err(
                        ParseError {
                            kind: ParseErrorKind::MissingPayloadSeparator,
                            input: String::from_str(payload_region),
                        },
                    ),
                    Some(q) => Ok(
                        Extraction {
                            payload: String::from_str(payload_name),
                            options,
                            payload_options: Some(
                                parse_param_table_str(payload_region.substring_char(q, pn)),
                            ),
                            targets,
                        },
                    ),
                }
            } else {
                Ok(
                    Extraction {
                        payload: String::from_str(payload_name),
                        options,
                        payload_options: None,
                        targets,
                    },
                )
            }
        },
    }
}

/// Parse one raw table region as a parameter table.
fn parse_param_table_str(region: &str) -> (r: Vec<Parameter>)
    ensures
        r.deep_view() == table_params(region@),
{
    let section = Section::of_region("", region);
    parse_param_rows(&section.rows)
}

/// Extract payload name, option tables and targets from one aggregated
/// `show options` blob.
pub fn extract_module_info(blob: &str) -> (r: Result<Extraction, ParseError>)
    ensures
        match r {
            Ok(x) => extract_spec(blob@) == Ok::<ExtractionModel, ParseErrorModel>(x@),
            Err(e) => extract_spec(blob@) == Err::<ExtractionModel, ParseErrorModel>(e@),
        },
{
    let n = blob.unicode_len();
    let e = match find_blank_run(blob) {
        None => {
            return Err(
                ParseError {
                    kind: ParseErrorKind::MissingTargetEnd,
                    input: String::from_str(blob),
                },
            );
        },
        Some(e) => e,
    };
    let pm = "Payload options (";
    let tm = "Exploit target:";
    match find_pat(blob, pm) {
        None => {
            match find_pat(blob, tm) {
                None => Err(
                    ParseError {
                        kind: ParseErrorKind::MissingExploitTarget,
                        input: String::from_str(blob),
                    },
                ),
                Some(x) => {
                    proof {
                        lemma_first_match_props(blob@, tm@, 0);
                    }
                    if x <= e {
                        let module_region = blob.substring_char(0, x);
                        let target_region = blob.substring_char(x, e);
                        let empty = "";
                        proof {
                            reveal_strlit("");
                            assert(empty@ =~= Seq::<char>::empty());
                        }
                        assemble(module_region, empty, empty, target_region, false)
                    } else {
                        Err(
                            ParseError {
                                kind: ParseErrorKind::RegionOutOfBounds,
                                input: String::from_str(blob),
                            },
                        )
                    }
                },
            }
        },
        Some(p) => {
            proof {
                lemma_first_match_props(blob@, pm@, 0);
            }
            let tail = blob.substring_char(p, n);
            let pmlen = pm.unicode_len();
            let tmlen = tm.unicode_len();
            let pend = "):";
            match find_pat(tail, pend) {
                None => Err(
                    ParseError {
                        kind: ParseErrorKind::MissingPayloadEnd,
                        input: String::from_str(blob),
                    },
                ),
                Some(pe) => match find_pat(tail, tm) {
                    None => Err(
                        ParseError {
                            kind: ParseErrorKind::MissingExploitTarget,
                            input: String::from_str(blob),
                        },
                    ),
                    Some(x) => {
                        proof {
                            lemma_first_match_props(tail@, pend@, 0);
                            lemma_first_match_props(tail@, tm@, 0);
                        }
                        if pmlen <= pe && pe <= x && p + x + tmlen <= e {
                            let module_region = blob.substring_char(0, p);
                            let payload_name = blob.substring_char(p + pmlen, p + pe);
                            let payload_region = blob.substring_char(p + pe, p + x);
                            let target_region = blob.substring_char(p + x + tmlen, e);
                            assemble(module_region, payload_name, payload_region, target_region, true)
                        } else {
                            Err(
                                ParseError {
                                    kind: ParseErrorKind::RegionOutOfBounds,
                                    input: String::from_str(blob),
                                },
                            )
                        }
                    },
                },
            }
        },
    }
}

/// The entries of a listing blob: everything after the listing table's
/// header separator, parsed as a six-column table. A blob without the
/// separator lists nothing.
pub open spec fn listing_spec(blob: Seq<char>) -> Seq<crate::records::ListingModel> {
    match table_start(blob) {
        None => Seq::empty(),
        Some(i) => table_listing(blob.subrange(i, blob.len() as int)),
    }
}

/// Extract the summary rows of one listing command's output.
pub fn extract_listing(blob: &str) -> (r: Vec<ListingEntry>)
    ensures
        r.deep_view() == listing_spec(blob@),
{
    let n = blob.unicode_len();
    match find_table_start(blob) {
        None => Vec::new(),
        Some(i) => {
            let section = Section::of_region("", blob.substring_char(i, n));
            parse_listing_rows(&section.rows)
        },
    }
}

/// Lacking a payload marker is no failure: such a blob, when it parses,
/// parses to an empty payload name and no payload options, and when it
/// fails, fails for a reason unrelated to the payload.
pub proof fn lemma_no_payload_marker_is_no_error(blob: Seq<char>)
    requires
        first_match(blob, payload_marker()) is None,
    ensures
        extract_spec(blob) matches Ok(x) ==> x.payload.len() == 0 && x.payload_options is None,
        extract_spec(blob) matches Err(e) ==> e.kind != ParseErrorKind::MissingPayloadEnd
            && e.kind != ParseErrorKind::MissingPayloadSeparator,
{
}

/// A blob with no blank run at all is reported as a parse error that
/// carries the whole input, never anything else.
pub proof fn lemma_missing_target_end_is_error(blob: Seq<char>)
    requires
        first_match(blob, "\n\n\n"@) is None,
    ensures
        extract_spec(blob) == Err::<ExtractionModel, ParseErrorModel>(
            ParseErrorModel { kind: ParseErrorKind::MissingTargetEnd, input: blob },
        ),
{
    proof_literal_run_lens();
    if first_match(blob, "\n\n\n\n"@) is Some {
        lemma_first_match_props(blob, "\n\n\n\n"@, 0);
        let j = first_match(blob, "\n\n\n\n"@)->0;
        assert(match_at(blob, "\n\n\n\n"@, j));
        assert(blob.subrange(j, j + 3) =~= "\n\n\n"@) by {
            assert(forall|k: int| 0 <= k < 4 ==> blob.subrange(j, j + 4)[k] == "\n\n\n\n"@[k]);
        }
        lemma_match_implies_found(blob, "\n\n\n"@, j, 0);
        assert(false);
    }
}

} // verus!
