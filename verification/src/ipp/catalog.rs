use vstd::prelude::*;
use vstd::string::{StringExecFns, StrSliceExecFns};
use crate::ipp::types::{AttrV, IppAttribute, IppValue, ValueV, attrs_view, members_view, values_view};
use crate::ipp::printer::PrinterState;
use crate::text::{has_prefix, starts_with};

verus! {

/// A media-col collection: the media size (in 1/100 mm), zero margins, stationery.
pub open spec fn media_col(x: i32, y: i32) -> ValueV {
    ValueV::Collection(
        seq![
            (
                "media-size"@,
                ValueV::Collection(
                    seq![("x-dimension"@, ValueV::Integer(x)), ("y-dimension"@, ValueV::Integer(y))],
                ),
            ),
            ("media-bottom-margin"@, ValueV::Integer(0)),
            ("media-left-margin"@, ValueV::Integer(0)),
            ("media-right-margin"@, ValueV::Integer(0)),
            ("media-top-margin"@, ValueV::Integer(0)),
            ("media-type"@, ValueV::Keyword("stationery"@)),
        ],
    )
}

/// Appends a member to a collection under construction.
fn push_member(ms: &mut Vec<(String, IppValue)>, name: &str, v: IppValue)
    ensures
        members_view(final(ms)@) == members_view(old(ms)@).push((name@, v@)),
{
    let ghost prev = ms@;
    ms.push((String::from_str(name), v));
    proof {
        assert(ms@.drop_last() =~= prev);
    }
}

/// Builds a media-col collection.
fn media_col_value(x: i32, y: i32) -> (v: IppValue)
    ensures
        v@ == media_col(x, y),
{
    let mut size: Vec<(String, IppValue)> = Vec::new();
    proof {
        assert(members_view(size@) =~= Seq::<(Seq<char>, ValueV)>::empty());
    }
    push_member(&mut size, "x-dimension", IppValue::Integer(x));
    push_member(&mut size, "y-dimension", IppValue::Integer(y));
    proof {
        assert(members_view(size@) =~= seq![("x-dimension"@, ValueV::Integer(x)), ("y-dimension"@, ValueV::Integer(y))]);
    }
    let mut ms: Vec<(String, IppValue)> = Vec::new();
    proof {
        assert(members_view(ms@) =~= Seq::<(Seq<char>, ValueV)>::empty());
    }
    push_member(&mut ms, "media-size", IppValue::Collection(size));
    push_member(&mut ms, "media-bottom-margin", IppValue::Integer(0));
    push_member(&mut ms, "media-left-margin", IppValue::Integer(0));
    push_member(&mut ms, "media-right-margin", IppValue::Integer(0));
    push_member(&mut ms, "media-top-margin", IppValue::Integer(0));
    push_member(&mut ms, "media-type", IppValue::Keyword(String::from_str("stationery")));
    let v = IppValue::Collection(ms);
    proof {
        assert(members_view(ms@) =~= media_col(x, y)->Collection_0);
    }
    v
}

/// Build a media-col collection for A4 (210×297 mm, dimensions in 1/100 mm units).
pub fn media_col_a4() -> (v: IppValue)
    ensures
        v@ == media_col(21000, 29700),
{
    media_col_value(21000, 29700)
}

/// Build a media-col collection for US Letter (215.9×279.4 mm).
pub fn media_col_letter() -> (v: IppValue)
    ensures
        v@ == media_col(21590, 27940),
{
    media_col_value(21590, 27940)
}

/// `s` with every leading occurrence of `p` taken off (`str::trim_start_matches`).
pub open spec fn trim_start_all(s: Seq<char>, p: Seq<char>) -> Seq<char>
    decreases s.len(),
{
    if p.len() > 0 && has_prefix(s, p) {
        trim_start_all(s.skip(p.len() as int), p)
    } else {
        s
    }
}

/// `s` up to, and without, the first `c` (all of `s` when there is none).
pub open spec fn up_to_char(s: Seq<char>, c: char) -> Seq<char>
    decreases s.len(),
{
    if s.len() == 0 {
        s
    } else if s[0] == c {
        Seq::empty()
    } else {
        seq![s[0]] + up_to_char(s.drop_first(), c)
    }
}

/// The page with more information on the printer: `http://{host:port}/`, the host and port
/// taken from the printer URI.
pub open spec fn more_info_uri(printer_uri: Seq<char>) -> Seq<char> {
    "http://"@ + up_to_char(trim_start_all(printer_uri, "ipp://"@), '/') + "/"@
}

/// Builds the printer-more-info URI from the printer URI.
fn more_info(printer_uri: &str) -> (s: String)
    ensures
        s@ == more_info_uri(printer_uri@),
{
    let n = printer_uri.unicode_len();
    let pat = "ipp://";
    let m = pat.unicode_len();
    let mut k: usize = 0;
    proof {
        assert(printer_uri@.skip(0) =~= printer_uri@);
    }
    // Strip every leading "ipp://"
    loop
        invariant
            n == printer_uri@.len(),
            m == pat@.len(),
            k <= n,
            trim_start_all(printer_uri@, pat@) == trim_start_all(printer_uri@.skip(k as int), pat@),
        ensures
            k <= n,
            trim_start_all(printer_uri@, pat@) == printer_uri@.skip(k as int),
        decreases n - k,
    {
        let rest = printer_uri.substring_char(k, n);
        proof {
            assert(rest@ =~= printer_uri@.skip(k as int));
        }
        if m > 0 && starts_with(rest, pat) {
            proof {
                assert(rest@.skip(m as int) =~= printer_uri@.skip(k + m));
            }
            k = k + m;
        } else {
            break;
        }
    }
    // Up to the first '/'
    let mut j: usize = k;
    while j < n && printer_uri.get_char(j) != '/'
        invariant
            n == printer_uri@.len(),
            k <= j <= n,
            forall|i: int| k <= i < j ==> printer_uri@[i] != '/',
            up_to_char(printer_uri@.skip(k as int), '/') == printer_uri@.subrange(k as int, j as int)
                + up_to_char(printer_uri@.skip(j as int), '/'),
        decreases n - j,
    {
        proof {
            let t = printer_uri@.skip(j as int);
            assert(t.drop_first() =~= printer_uri@.skip(j + 1));
            assert(printer_uri@.subrange(k as int, j + 1) =~= printer_uri@.subrange(k as int, j as int)
                + seq![t[0]]);
        }
        j = j + 1;
    }
    proof {
        let t = printer_uri@.skip(j as int);
        if j < n {
            assert(t[0] == '/');
        } else {
            assert(t.len() == 0);
        }
        assert(up_to_char(t, '/') =~= Seq::<char>::empty());
    }
    let host_port = printer_uri.substring_char(k, j);
    let mut s = String::from_str("http://");
    s.append(host_port);
    s.append("/");
    proof {
        assert(s@ =~= more_info_uri(printer_uri@));
    }
    s
}

/// Printer attributes, part 1 of the catalog.
pub open spec fn catalog_part1(printer_name: Seq<char>, printer_uri: Seq<char>, now: u64) -> Seq<AttrV> {
    seq![
        AttrV { name: "printer-uri-supported"@, values: seq![ValueV::Uri(printer_uri)] },
        AttrV { name: "uri-security-supported"@, values: seq![ValueV::Keyword("none"@)] },
        AttrV { name: "uri-authentication-supported"@, values: seq![ValueV::Keyword("none"@)] },
        AttrV { name: "printer-name"@, values: seq![ValueV::NameWithoutLanguage(printer_name)] },
        AttrV { name: "printer-make-and-model"@, values: seq![ValueV::TextWithoutLanguage("InkPrint Virtual PDF Printer"@)] },
        AttrV { name: "printer-state"@, values: seq![ValueV::Enum(3)] },
        AttrV { name: "printer-state-reasons"@, values: seq![ValueV::Keyword("none"@)] },
        AttrV { name: "ipp-versions-supported"@, values: seq![ValueV::Keyword("1.0"@), ValueV::Keyword("1.1"@), ValueV::Keyword("2.0"@)] },
        AttrV { name: "ipp-features-supported"@, values: seq![ValueV::Keyword("ipp-everywhere"@), ValueV::Keyword("airprint-2.0"@)] },
        AttrV { name: "operations-supported"@, values: seq![ValueV::Enum(2), ValueV::Enum(9), ValueV::Enum(11)] },
        AttrV { name: "charset-configured"@, values: seq![ValueV::Charset("utf-8"@)] },
    ]
}

/// Printer attributes, part 2 of the catalog.
pub open spec fn catalog_part2(printer_name: Seq<char>, printer_uri: Seq<char>, now: u64) -> Seq<AttrV> {
    seq![
        AttrV { name: "charset-supported"@, values: seq![ValueV::Charset("utf-8"@)] },
        AttrV { name: "natural-language-configured"@, values: seq![ValueV::NaturalLanguage("en"@)] },
        AttrV { name: "generated-natural-language-supported"@, values: seq![ValueV::NaturalLanguage("en"@)] },
        AttrV { name: "document-format-default"@, values: seq![ValueV::MimeMediaType("application/pdf"@)] },
        AttrV { name: "document-format-supported"@, values: seq![ValueV::MimeMediaType("application/pdf"@), ValueV::MimeMediaType("application/postscript"@), ValueV::MimeMediaType("application/octet-stream"@)] },
        AttrV { name: "pdf-versions-supported"@, values: seq![ValueV::Keyword("adobe-1.4"@)] },
        AttrV { name: "printer-is-accepting-jobs"@, values: seq![ValueV::Boolean(true)] },
        AttrV { name: "queued-job-count"@, values: seq![ValueV::Integer(0)] },
        AttrV { name: "pdl-override-supported"@, values: seq![ValueV::Keyword("not-attempted"@)] },
        AttrV { name: "printer-up-time"@, values: seq![ValueV::Integer(now as i32)] },
        AttrV { name: "compression-supported"@, values: seq![ValueV::Keyword("none"@)] },
    ]
}

/// Printer attributes, part 3 of the catalog.
pub open spec fn catalog_part3(printer_name: Seq<char>, printer_uri: Seq<char>, now: u64) -> Seq<AttrV> {
    seq![
        AttrV { name: "color-supported"@, values: seq![ValueV::Boolean(false)] },
        AttrV { name: "sides-supported"@, values: seq![ValueV::Keyword("one-sided"@)] },
        AttrV { name: "sides-default"@, values: seq![ValueV::Keyword("one-sided"@)] },
        AttrV { name: "print-color-mode-default"@, values: seq![ValueV::Keyword("monochrome"@)] },
        AttrV { name: "print-color-mode-supported"@, values: seq![ValueV::Keyword("monochrome"@)] },
        AttrV { name: "orientation-requested-default"@, values: seq![ValueV::Enum(3)] },
        AttrV { name: "orientation-requested-supported"@, values: seq![ValueV::Enum(3), ValueV::Enum(4)] },
        AttrV { name: "output-bin-default"@, values: seq![ValueV::Keyword("face-up"@)] },
        AttrV { name: "output-bin-supported"@, values: seq![ValueV::Keyword("face-up"@)] },
        AttrV { name: "printer-resolution-default"@, values: seq![ValueV::Resolution { cross_feed: 300, feed: 300, units: 3 }] },
        AttrV { name: "printer-resolution-supported"@, values: seq![ValueV::Resolution { cross_feed: 300, feed: 300, units: 3 }] },
    ]
}

/// Printer attributes, part 4 of the catalog.
pub open spec fn catalog_part4(printer_name: Seq<char>, printer_uri: Seq<char>, now: u64) -> Seq<AttrV> {
    seq![
        AttrV { name: "multiple-document-jobs-supported"@, values: seq![ValueV::Boolean(false)] },
        AttrV { name: "job-creation-attributes-supported"@, values: seq![ValueV::Keyword("copies"@), ValueV::Keyword("document-format"@), ValueV::Keyword("job-name"@), ValueV::Keyword("media"@), ValueV::Keyword("media-col"@), ValueV::Keyword("orientation-requested"@), ValueV::Keyword("print-color-mode"@), ValueV::Keyword("print-quality"@), ValueV::Keyword("printer-resolution"@), ValueV::Keyword("sides"@)] },
        AttrV { name: "printer-info"@, values: seq![ValueV::TextWithoutLanguage("InkPrint Virtual PDF Printer for e-ink reader"@)] },
        AttrV { name: "printer-location"@, values: seq![ValueV::TextWithoutLanguage(""@)] },
        AttrV { name: "printer-more-info"@, values: seq![ValueV::Uri(more_info_uri(printer_uri))] },
        AttrV { name: "media-default"@, values: seq![ValueV::Keyword("iso_a4_210x297mm"@)] },
        AttrV { name: "media-supported"@, values: seq![ValueV::Keyword("iso_a4_210x297mm"@), ValueV::Keyword("na_letter_8.5x11in"@)] },
        AttrV { name: "media-col-default"@, values: seq![media_col(21000, 29700)] },
        AttrV { name: "media-col-database"@, values: seq![media_col(21000, 29700), media_col(21590, 27940)] },
        AttrV { name: "media-col-ready"@, values: seq![media_col(21000, 29700)] },
        AttrV { name: "media-ready"@, values: seq![ValueV::Keyword("iso_a4_210x297mm"@)] },
    ]
}

/// Printer attributes, part 5 of the catalog.
pub open spec fn catalog_part5(printer_name: Seq<char>, printer_uri: Seq<char>, now: u64) -> Seq<AttrV> {
    seq![
        AttrV { name: "copies-default"@, values: seq![ValueV::Integer(1)] },
        AttrV { name: "copies-supported"@, values: seq![ValueV::RangeOfInteger { lower: 1, upper: 1 }] },
        AttrV { name: "page-ranges-supported"@, values: seq![ValueV::Boolean(false)] },
        AttrV { name: "print-quality-default"@, values: seq![ValueV::Enum(4)] },
        AttrV { name: "print-quality-supported"@, values: seq![ValueV::Enum(4)] },
        AttrV { name: "printer-uuid"@, values: seq![ValueV::Uri("urn:uuid:a7d4b3e2-1c5f-4d8a-9e0b-2f6c8d3a1b4e"@)] },
        AttrV { name: "urf-supported"@, values: seq![ValueV::Keyword("CP1"@), ValueV::Keyword("W8"@), ValueV::Keyword("RS300"@)] },
        AttrV { name: "pwg-raster-document-resolution-supported"@, values: seq![ValueV::Resolution { cross_feed: 300, feed: 300, units: 3 }] },
        AttrV { name: "pwg-raster-document-sheet-back"@, values: seq![ValueV::Keyword("normal"@)] },
        AttrV { name: "pwg-raster-document-type-supported"@, values: seq![ValueV::Keyword("sgray-8"@)] },
    ]
}

/// Every attribute Get-Printer-Attributes can answer, in the order it answers them.
pub open spec fn printer_catalog(printer_name: Seq<char>, printer_uri: Seq<char>, now: u64) -> Seq<AttrV> {
    catalog_part1(printer_name, printer_uri, now) + catalog_part2(printer_name, printer_uri, now) + catalog_part3(printer_name, printer_uri, now) + catalog_part4(printer_name, printer_uri, now) + catalog_part5(printer_name, printer_uri, now)
}

/// Appends part 1 of the catalog.
fn push_catalog_part1(attrs: &mut Vec<IppAttribute>, printer: &PrinterState, now: u64)
    ensures
        attrs_view(final(attrs)@) == attrs_view(old(attrs)@) + catalog_part1(printer.printer_name@, printer.printer_uri@, now),
{
    let ghost start = attrs_view(attrs@);
    attrs.push(IppAttribute::new("printer-uri-supported", IppValue::Uri(printer.printer_uri.clone())));
    attrs.push(IppAttribute::new("uri-security-supported", IppValue::Keyword(String::from_str("none"))));
    attrs.push(IppAttribute::new("uri-authentication-supported", IppValue::Keyword(String::from_str("none"))));
    attrs.push(IppAttribute::new("printer-name", IppValue::NameWithoutLanguage(printer.printer_name.clone())));
    attrs.push(IppAttribute::new("printer-make-and-model", IppValue::TextWithoutLanguage(String::from_str("InkPrint Virtual PDF Printer"))));
    attrs.push(IppAttribute::new("printer-state", IppValue::Enum(3)));
    attrs.push(IppAttribute::new("printer-state-reasons", IppValue::Keyword(String::from_str("none"))));
    {
        let mut vs: Vec<IppValue> = Vec::new();
        vs.push(IppValue::Keyword(String::from_str("1.0")));
        vs.push(IppValue::Keyword(String::from_str("1.1")));
        vs.push(IppValue::Keyword(String::from_str("2.0")));
        proof {
            assert(values_view(vs@) =~= seq![ValueV::Keyword("1.0"@), ValueV::Keyword("1.1"@), ValueV::Keyword("2.0"@)]);
        }
        attrs.push(IppAttribute::new_multi("ipp-versions-supported", vs));
    }
    {
        let mut vs: Vec<IppValue> = Vec::new();
        vs.push(IppValue::Keyword(String::from_str("ipp-everywhere")));
        vs.push(IppValue::Keyword(String::from_str("airprint-2.0")));
        proof {
            assert(values_view(vs@) =~= seq![ValueV::Keyword("ipp-everywhere"@), ValueV::Keyword("airprint-2.0"@)]);
        }
        attrs.push(IppAttribute::new_multi("ipp-features-supported", vs));
    }
    {
        let mut vs: Vec<IppValue> = Vec::new();
        vs.push(IppValue::Enum(2));
        vs.push(IppValue::Enum(9));
        vs.push(IppValue::Enum(11));
        proof {
            assert(values_view(vs@) =~= seq![ValueV::Enum(2), ValueV::Enum(9), ValueV::Enum(11)]);
        }
        attrs.push(IppAttribute::new_multi("operations-supported", vs));
    }
    attrs.push(IppAttribute::new("charset-configured", IppValue::Charset(String::from_str("utf-8"))));
    proof {
        assert(attrs_view(attrs@) =~= start + catalog_part1(printer.printer_name@, printer.printer_uri@, now));
    }
}

/// Appends part 2 of the catalog.
fn push_catalog_part2(attrs: &mut Vec<IppAttribute>, printer: &PrinterState, now: u64)
    ensures
        attrs_view(final(attrs)@) == attrs_view(old(attrs)@) + catalog_part2(printer.printer_name@, printer.printer_uri@, now),
{
    let ghost start = attrs_view(attrs@);
    attrs.push(IppAttribute::new("charset-supported", IppValue::Charset(String::from_str("utf-8"))));
    attrs.push(IppAttribute::new("natural-language-configured", IppValue::NaturalLanguage(String::from_str("en"))));
    attrs.push(IppAttribute::new("generated-natural-language-supported", IppValue::NaturalLanguage(String::from_str("en"))));
    attrs.push(IppAttribute::new("document-format-default", IppValue::MimeMediaType(String::from_str("application/pdf"))));
    {
        let mut vs: Vec<IppValue> = Vec::new();
        vs.push(IppValue::MimeMediaType(String::from_str("application/pdf")));
        vs.push(IppValue::MimeMediaType(String::from_str("application/postscript")));
        vs.push(IppValue::MimeMediaType(String::from_str("application/octet-stream")));
        proof {
            assert(values_view(vs@) =~= seq![ValueV::MimeMediaType("application/pdf"@), ValueV::MimeMediaType("application/postscript"@), ValueV::MimeMediaType("application/octet-stream"@)]);
        }
        attrs.push(IppAttribute::new_multi("document-format-supported", vs));
    }
    attrs.push(IppAttribute::new("pdf-versions-supported", IppValue::Keyword(String::from_str("adobe-1.4"))));
    attrs.push(IppAttribute::new("printer-is-accepting-jobs", IppValue::Boolean(true)));
    attrs.push(IppAttribute::new("queued-job-count", IppValue::Integer(0)));
    attrs.push(IppAttribute::new("pdl-override-supported", IppValue::Keyword(String::from_str("not-attempted"))));
    attrs.push(IppAttribute::new("printer-up-time", IppValue::Integer(now as i32)));
    attrs.push(IppAttribute::new("compression-supported", IppValue::Keyword(String::from_str("none"))));
    proof {
        assert(attrs_view(attrs@) =~= start + catalog_part2(printer.printer_name@, printer.printer_uri@, now));
    }
}

/// Appends part 3 of the catalog.
fn push_catalog_part3(attrs: &mut Vec<IppAttribute>, printer: &PrinterState, now: u64)
    ensures
        attrs_view(final(attrs)@) == attrs_view(old(attrs)@) + catalog_part3(printer.printer_name@, printer.printer_uri@, now),
{
    let ghost start = attrs_view(attrs@);
    attrs.push(IppAttribute::new("color-supported", IppValue::Boolean(false)));
    attrs.push(IppAttribute::new("sides-supported", IppValue::Keyword(String::from_str("one-sided"))));
    attrs.push(IppAttribute::new("sides-default", IppValue::Keyword(String::from_str("one-sided"))));
    attrs.push(IppAttribute::new("print-color-mode-default", IppValue::Keyword(String::from_str("monochrome"))));
    attrs.push(IppAttribute::new("print-color-mode-supported", IppValue::Keyword(String::from_str("monochrome"))));
    attrs.push(IppAttribute::new("orientation-requested-default", IppValue::Enum(3)));
    {
        let mut vs: Vec<IppValue> = Vec::new();
        vs.push(IppValue::Enum(3));
        vs.push(IppValue::Enum(4));
        proof {
            assert(values_view(vs@) =~= seq![ValueV::Enum(3), ValueV::Enum(4)]);
        }
        attrs.push(IppAttribute::new_multi("orientation-requested-supported", vs));
    }
    attrs.push(IppAttribute::new("output-bin-default", IppValue::Keyword(String::from_str("face-up"))));
    attrs.push(IppAttribute::new("output-bin-supported", IppValue::Keyword(String::from_str("face-up"))));
    attrs.push(IppAttribute::new("printer-resolution-default", IppValue::Resolution { cross_feed: 300, feed: 300, units: 3 }));
    attrs.push(IppAttribute::new("printer-resolution-supported", IppValue::Resolution { cross_feed: 300, feed: 300, units: 3 }));
    proof {
        assert(attrs_view(attrs@) =~= start + catalog_part3(printer.printer_name@, printer.printer_uri@, now));
    }
}

/// Appends part 4 of the catalog.
fn push_catalog_part4(attrs: &mut Vec<IppAttribute>, printer: &PrinterState, now: u64)
    ensures
        attrs_view(final(attrs)@) == attrs_view(old(attrs)@) + catalog_part4(printer.printer_name@, printer.printer_uri@, now),
{
    let ghost start = attrs_view(attrs@);
    attrs.push(IppAttribute::new("multiple-document-jobs-supported", IppValue::Boolean(false)));
    {
        let mut vs: Vec<IppValue> = Vec::new();
        vs.push(IppValue::Keyword(String::from_str("copies")));
        vs.push(IppValue::Keyword(String::from_str("document-format")));
        vs.push(IppValue::Keyword(String::from_str("job-name")));
        vs.push(IppValue::Keyword(String::from_str("media")));
        vs.push(IppValue::Keyword(String::from_str("media-col")));
        vs.push(IppValue::Keyword(String::from_str("orientation-requested")));
        vs.push(IppValue::Keyword(String::from_str("print-color-mode")));
        vs.push(IppValue::Keyword(String::from_str("print-quality")));
        vs.push(IppValue::Keyword(String::from_str("printer-resolution")));
        vs.push(IppValue::Keyword(String::from_str("sides")));
        proof {
            assert(values_view(vs@) =~= seq![ValueV::Keyword("copies"@), ValueV::Keyword("document-format"@), ValueV::Keyword("job-name"@), ValueV::Keyword("media"@), ValueV::Keyword("media-col"@), ValueV::Keyword("orientation-requested"@), ValueV::Keyword("print-color-mode"@), ValueV::Keyword("print-quality"@), ValueV::Keyword("printer-resolution"@), ValueV::Keyword("sides"@)]);
        }
        attrs.push(IppAttribute::new_multi("job-creation-attributes-supported", vs));
    }
    attrs.push(IppAttribute::new("printer-info", IppValue::TextWithoutLanguage(String::from_str("InkPrint Virtual PDF Printer for e-ink reader"))));
    attrs.push(IppAttribute::new("printer-location", IppValue::TextWithoutLanguage(String::from_str(""))));
    attrs.push(IppAttribute::new("printer-more-info", IppValue::Uri(more_info(printer.printer_uri.as_str()))));
    attrs.push(IppAttribute::new("media-default", IppValue::Keyword(String::from_str("iso_a4_210x297mm"))));
    {
        let mut vs: Vec<IppValue> = Vec::new();
        vs.push(IppValue::Keyword(String::from_str("iso_a4_210x297mm")));
        vs.push(IppValue::Keyword(String::from_str("na_letter_8.5x11in")));
        proof {
            assert(values_view(vs@) =~= seq![ValueV::Keyword("iso_a4_210x297mm"@), ValueV::Keyword("na_letter_8.5x11in"@)]);
        }
        attrs.push(IppAttribute::new_multi("media-supported", vs));
    }
    attrs.push(IppAttribute::new("media-col-default", media_col_a4()));
    {
        let mut vs: Vec<IppValue> = Vec::new();
        vs.push(media_col_a4());
        vs.push(media_col_letter());
        proof {
            assert(values_view(vs@) =~= seq![media_col(21000, 29700), media_col(21590, 27940)]);
        }
        attrs.push(IppAttribute::new_multi("media-col-database", vs));
    }
    attrs.push(IppAttribute::new("media-col-ready", media_col_a4()));
    attrs.push(IppAttribute::new("media-ready", IppValue::Keyword(String::from_str("iso_a4_210x297mm"))));
    proof {
        assert(attrs_view(attrs@) =~= start + catalog_part4(printer.printer_name@, printer.printer_uri@, now));
    }
}

/// Appends part 5 of the catalog.
fn push_catalog_part5(attrs: &mut Vec<IppAttribute>, printer: &PrinterState, now: u64)
    ensures
        attrs_view(final(attrs)@) == attrs_view(old(attrs)@) + catalog_part5(printer.printer_name@, printer.printer_uri@, now),
{
    let ghost start = attrs_view(attrs@);
    attrs.push(IppAttribute::new("copies-default", IppValue::Integer(1)));
    attrs.push(IppAttribute::new("copies-supported", IppValue::RangeOfInteger { lower: 1, upper: 1 }));
    attrs.push(IppAttribute::new("page-ranges-supported", IppValue::Boolean(false)));
    attrs.push(IppAttribute::new("print-quality-default", IppValue::Enum(4)));
    attrs.push(IppAttribute::new("print-quality-supported", IppValue::Enum(4)));
    attrs.push(IppAttribute::new("printer-uuid", IppValue::Uri(String::from_str("urn:uuid:a7d4b3e2-1c5f-4d8a-9e0b-2f6c8d3a1b4e"))));
    {
        let mut vs: Vec<IppValue> = Vec::new();
        vs.push(IppValue::Keyword(String::from_str("CP1")));
        vs.push(IppValue::Keyword(String::from_str("W8")));
        vs.push(IppValue::Keyword(String::from_str("RS300")));
        proof {
            assert(values_view(vs@) =~= seq![ValueV::Keyword("CP1"@), ValueV::Keyword("W8"@), ValueV::Keyword("RS300"@)]);
        }
        attrs.push(IppAttribute::new_multi("urf-supported", vs));
    }
    attrs.push(IppAttribute::new("pwg-raster-document-resolution-supported", IppValue::Resolution { cross_feed: 300, feed: 300, units: 3 }));
    attrs.push(IppAttribute::new("pwg-raster-document-sheet-back", IppValue::Keyword(String::from_str("normal"))));
    attrs.push(IppAttribute::new("pwg-raster-document-type-supported", IppValue::Keyword(String::from_str("sgray-8"))));
    proof {
        assert(attrs_view(attrs@) =~= start + catalog_part5(printer.printer_name@, printer.printer_uri@, now));
    }
}

/// Builds every attribute Get-Printer-Attributes can answer.
pub fn printer_attribute_catalog(printer: &PrinterState, now: u64) -> (attrs: Vec<IppAttribute>)
    ensures
        attrs_view(attrs@) == printer_catalog(printer.printer_name@, printer.printer_uri@, now),
{
    let mut attrs: Vec<IppAttribute> = Vec::new();
    proof {
        assert(attrs_view(attrs@) =~= Seq::<AttrV>::empty());
    }
    push_catalog_part1(&mut attrs, printer, now);
    push_catalog_part2(&mut attrs, printer, now);
    push_catalog_part3(&mut attrs, printer, now);
    push_catalog_part4(&mut attrs, printer, now);
    push_catalog_part5(&mut attrs, printer, now);
    proof {
        assert(attrs_view(attrs@) =~= printer_catalog(printer.printer_name@, printer.printer_uri@, now));
    }
    attrs
}

} // verus!
