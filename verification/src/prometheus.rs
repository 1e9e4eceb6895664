//! The metric encoder: lifts task results into labelled gauge
//! families and writes them in the negotiated text format under the
//! `homers` namespace.

pub mod render;

use vstd::prelude::*;
use vstd::string::*;

use crate::text::{i128_to_string, push_char, spec_int_string, str_eq};

verus! {

/// The two output dialects. `OpenMetrics` adds the `# EOF` trailer;
/// the content types differ (see the HTTP surface).
#[derive(Clone, Copy, PartialEq, Eq, Structural, Debug)]
pub enum Format {
    Prometheus,
    OpenMetrics,
}

/// One label on one series.
pub struct Label {
    pub key: String,
    pub value: String,
}

/// One gauge series: its labels and its value.
pub struct Sample {
    pub labels: Vec<Label>,
    pub value: i128,
}

/// One gauge family: a name (without the namespace prefix), a help
/// line, and its series.
pub struct MetricFamily {
    pub name: String,
    pub help: String,
    pub samples: Vec<Sample>,
}

/// The ghost image of a label.
#[verifier::ext_equal]
pub ghost struct GLabel {
    pub key: Seq<char>,
    pub value: Seq<char>,
}

/// The ghost image of a sample.
#[verifier::ext_equal]
pub ghost struct GSample {
    pub labels: Seq<GLabel>,
    pub value: int,
}

/// The ghost image of a family.
#[verifier::ext_equal]
pub ghost struct GFamily {
    pub name: Seq<char>,
    pub help: Seq<char>,
    pub samples: Seq<GSample>,
}

impl Label {
    pub open spec fn model(self) -> GLabel {
        GLabel { key: self.key@, value: self.value@ }
    }
}

pub open spec fn labels_model(ls: Seq<Label>) -> Seq<GLabel> {
    ls.map_values(|l: Label| l.model())
}

impl Sample {
    pub open spec fn model(self) -> GSample {
        GSample { labels: labels_model(self.labels@), value: self.value as int }
    }
}

pub open spec fn samples_model(ss: Seq<Sample>) -> Seq<GSample> {
    ss.map_values(|s: Sample| s.model())
}

impl MetricFamily {
    pub open spec fn model(self) -> GFamily {
        GFamily { name: self.name@, help: self.help@, samples: samples_model(self.samples@) }
    }
}

pub open spec fn models(fs: Seq<MetricFamily>) -> Seq<GFamily> {
    fs.map_values(|f: MetricFamily| f.model())
}

/// How one character is written inside a quoted label value.
pub open spec fn escape_char(c: char) -> Seq<char> {
    if c == '\\' {
        seq!['\\', '\\']
    } else if c == '"' {
        seq!['\\', '"']
    } else if c == '\n' {
        seq!['\\', 'n']
    } else {
        seq![c]
    }
}

/// A label value with backslash, double quote and newline escaped.
pub open spec fn spec_escape(s: Seq<char>) -> Seq<char>
    decreases s.len(),
{
    if s.len() == 0 {
        Seq::empty()
    } else {
        spec_escape(s.drop_last()) + escape_char(s.last())
    }
}

/// Escapes a label value for the text format.
pub fn escape_label_value(value: &str) -> (r: String)
    ensures
        r@ == spec_escape(value@),
{
    let len = value.unicode_len();
    let mut r = String::new();
    let mut i: usize = 0;
    while i < len
        invariant
            i <= len,
            len == value@.len(),
            r@ == spec_escape(value@.take(i as int)),
        decreases len - i,
    {
        proof {
            assert(value@.take(i + 1).drop_last() =~= value@.take(i as int));
            assert(value@.take(i + 1).last() == value@[i as int]);
        }
        let c = value.get_char(i);
        if c == '\\' {
            r.append("\\\\");
            proof {
                reveal_strlit("\\\\");
                assert(r@ =~= spec_escape(value@.take(i + 1)));
            }
        } else if c == '"' {
            r.append("\\\"");
            proof {
                reveal_strlit("\\\"");
                assert(r@ =~= spec_escape(value@.take(i + 1)));
            }
        } else if c == '\n' {
            r.append("\\n");
            proof {
                reveal_strlit("\\n");
                assert(r@ =~= spec_escape(value@.take(i + 1)));
            }
        } else {
            push_char(&mut r, c);
            proof {
                assert(r@ =~= spec_escape(value@.take(i + 1)));
            }
        }
        i += 1;
    }
    proof {
        assert(value@.take(value@.len() as int) =~= value@);
    }
    r
}

/// One label as written: `key="escaped value"`.
pub open spec fn spec_label_text(l: GLabel) -> Seq<char> {
    l.key + "=\""@ + spec_escape(l.value) + "\""@
}

/// Labels joined with commas.
pub open spec fn spec_labels_join(ls: Seq<GLabel>) -> Seq<char>
    decreases ls.len(),
{
    if ls.len() == 0 {
        Seq::empty()
    } else if ls.len() == 1 {
        spec_label_text(ls[0])
    } else {
        spec_labels_join(ls.drop_last()) + ","@ + spec_label_text(ls.last())
    }
}

/// One series line: name, label set when non-empty, value, newline.
pub open spec fn spec_sample_text(name: Seq<char>, s: GSample) -> Seq<char> {
    "homers_"@ + name + (if s.labels.len() == 0 {
        Seq::<char>::empty()
    } else {
        "{"@ + spec_labels_join(s.labels) + "}"@
    }) + " "@ + spec_int_string(s.value) + "\n"@
}

pub open spec fn spec_samples_text(name: Seq<char>, ss: Seq<GSample>) -> Seq<char>
    decreases ss.len(),
{
    if ss.len() == 0 {
        Seq::empty()
    } else {
        spec_samples_text(name, ss.drop_last()) + spec_sample_text(name, ss.last())
    }
}

/// One family as written: its HELP and TYPE lines, then its series.
pub open spec fn spec_family_text(f: GFamily) -> Seq<char> {
    "# HELP homers_"@ + f.name + " "@ + f.help + "\n"@ + "# TYPE homers_"@ + f.name
        + " gauge\n"@ + spec_samples_text(f.name, f.samples)
}

pub open spec fn spec_families_text(fs: Seq<GFamily>) -> Seq<char>
    decreases fs.len(),
{
    if fs.len() == 0 {
        Seq::empty()
    } else {
        spec_families_text(fs.drop_last()) + spec_family_text(fs.last())
    }
}

/// The whole document: every family in order, and the `# EOF` trailer
/// in the OpenMetrics dialect.
pub open spec fn spec_document(fs: Seq<GFamily>, format: Format) -> Seq<char> {
    match format {
        Format::Prometheus => spec_families_text(fs),
        Format::OpenMetrics => spec_families_text(fs) + "# EOF\n"@,
    }
}

fn append_label(out: &mut String, l: &Label)
    ensures
        final(out)@ == old(out)@ + spec_label_text(l.model()),
{
    out.append(l.key.as_str());
    out.append("=\"");
    let e = escape_label_value(l.value.as_str());
    out.append(e.as_str());
    out.append("\"");
    proof {
        assert(out@ =~= old(out)@ + spec_label_text(l.model()));
    }
}

fn append_labels(out: &mut String, ls: &Vec<Label>)
    ensures
        final(out)@ == old(out)@ + spec_labels_join(labels_model(ls@)),
{
    let mut i: usize = 0;
    proof {
        assert(labels_model(ls@.take(0)) =~= Seq::<GLabel>::empty());
    }
    while i < ls.len()
        invariant
            i <= ls@.len(),
            out@ == old(out)@ + spec_labels_join(labels_model(ls@.take(i as int))),
        decreases ls@.len() - i,
    {
        proof {
            assert(labels_model(ls@.take(i + 1)).drop_last() =~= labels_model(ls@.take(i as int)));
            assert(labels_model(ls@.take(i + 1)).last() == ls@[i as int].model());
        }
        if i > 0 {
            out.append(",");
        }
        append_label(out, &ls[i]);
        proof {
            assert(out@ =~= old(out)@ + spec_labels_join(labels_model(ls@.take(i + 1))));
        }
        i += 1;
    }
    proof {
        assert(ls@.take(ls@.len() as int) =~= ls@);
    }
}

fn append_sample(out: &mut String, name: &String, s: &Sample)
    ensures
        final(out)@ == old(out)@ + spec_sample_text(name@, s.model()),
{
    out.append("homers_");
    out.append(name.as_str());
    if s.labels.len() > 0 {
        out.append("{");
        append_labels(out, &s.labels);
        out.append("}");
    }
    out.append(" ");
    let v = i128_to_string(s.value);
    out.append(v.as_str());
    out.append("\n");
    proof {
        assert(out@ =~= old(out)@ + spec_sample_text(name@, s.model()));
    }
}

fn append_family(out: &mut String, f: &MetricFamily)
    ensures
        final(out)@ == old(out)@ + spec_family_text(f.model()),
{
    out.append("# HELP homers_");
    out.append(f.name.as_str());
    out.append(" ");
    out.append(f.help.as_str());
    out.append("\n");
    out.append("# TYPE homers_");
    out.append(f.name.as_str());
    out.append(" gauge\n");
    let ghost header = out@;
    proof {
        assert(samples_model(f.samples@.take(0)) =~= Seq::<GSample>::empty());
    }
    let mut i: usize = 0;
    while i < f.samples.len()
        invariant
            i <= f.samples@.len(),
            out@ == header + spec_samples_text(f.name@, samples_model(f.samples@.take(i as int))),
        decreases f.samples@.len() - i,
    {
        proof {
            assert(samples_model(f.samples@.take(i + 1)).drop_last() =~= samples_model(
                f.samples@.take(i as int),
            ));
            assert(samples_model(f.samples@.take(i + 1)).last() == f.samples@[i as int].model());
        }
        append_sample(out, &f.name, &f.samples[i]);
        proof {
            assert(out@ =~= header + spec_samples_text(
                f.name@,
                samples_model(f.samples@.take(i + 1)),
            ));
        }
        i += 1;
    }
    proof {
        assert(f.samples@.take(f.samples@.len() as int) =~= f.samples@);
        assert(out@ =~= old(out)@ + spec_family_text(f.model()));
    }
}

/// Serialises the families in the asked-for dialect.
pub fn encode_families(fams: &Vec<MetricFamily>, format: Format) -> (r: String)
    ensures
        r@ == spec_document(models(fams@), format),
{
    let mut out = String::new();
    proof {
        assert(models(fams@.take(0)) =~= Seq::<GFamily>::empty());
    }
    let mut i: usize = 0;
    while i < fams.len()
        invariant
            i <= fams@.len(),
            out@ == spec_families_text(models(fams@.take(i as int))),
        decreases fams@.len() - i,
    {
        proof {
            assert(models(fams@.take(i + 1)).drop_last() =~= models(fams@.take(i as int)));
            assert(models(fams@.take(i + 1)).last() == fams@[i as int].model());
        }
        append_family(&mut out, &fams[i]);
        proof {
            assert(out@ =~= spec_families_text(models(fams@.take(i + 1))));
        }
        i += 1;
    }
    proof {
        assert(fams@.take(fams@.len() as int) =~= fams@);
    }
    match format {
        Format::Prometheus => out,
        Format::OpenMetrics => {
            out.append("# EOF\n");
            out
        },
    }
}

/// The first family slot carrying a name, or -1.
pub open spec fn spec_find_family(fs: Seq<GFamily>, name: Seq<char>) -> int
    decreases fs.len(),
{
    if fs.len() == 0 {
        -1
    } else if fs[0].name == name {
        0
    } else {
        let r = spec_find_family(fs.drop_first(), name);
        if r < 0 {
            -1
        } else {
            r + 1
        }
    }
}

/// One more family in the registry: a family of the same name takes
/// the new series onto its own, so that two results of one kind make
/// one family with label-disambiguated series; a new name is appended.
pub open spec fn spec_merge_into(fs: Seq<GFamily>, f: GFamily) -> Seq<GFamily> {
    let at = spec_find_family(fs, f.name);
    if at >= 0 {
        fs.update(at, GFamily { name: fs[at].name, help: fs[at].help, samples: fs[at].samples + f.samples })
    } else {
        fs.push(f)
    }
}

/// The gauge value of a flag.
pub open spec fn gauge_bool(b: bool) -> int {
    if b {
        1
    } else {
        0
    }
}

/// Builds one label.
pub fn label(key: &str, value: String) -> (l: Label)
    ensures
        l.model() == (GLabel { key: key@, value: value@ }),
{
    Label { key: String::from_str(key), value }
}

/// Builds one family.
pub fn family(name: String, help: &str, samples: Vec<Sample>) -> (f: MetricFamily)
    ensures
        f.model() == (GFamily { name: name@, help: help@, samples: samples_model(samples@) }),
{
    MetricFamily { name, help: String::from_str(help), samples }
}

/// Builds a one-series family whose series carries a single label.
pub fn keyed_family(name: String, help: &str, key: &str, key_value: String, value: i128) -> (f:
    MetricFamily)
    ensures
        f.model() == (GFamily {
            name: name@,
            help: help@,
            samples: seq![
                GSample {
                    labels: seq![GLabel { key: key@, value: key_value@ }],
                    value: value as int,
                },
            ],
        }),
{
    let ghost kv = key_value@;
    let mut labels: Vec<Label> = Vec::new();
    labels.push(label(key, key_value));
    proof {
        assert(labels_model(labels@) =~= seq![GLabel { key: key@, value: kv }]);
    }
    let mut samples: Vec<Sample> = Vec::new();
    samples.push(Sample { labels, value });
    proof {
        assert(samples_model(samples@) =~= seq![
            GSample { labels: seq![GLabel { key: key@, value: kv }], value: value as int },
        ]);
    }
    family(name, help, samples)
}

/// Builds a one-series family whose series carries no labels.
pub fn scalar_family(name: String, help: &str, value: i128) -> (f: MetricFamily)
    ensures
        f.model() == (GFamily {
            name: name@,
            help: help@,
            samples: seq![GSample { labels: Seq::empty(), value: value as int }],
        }),
{
    let empty_labels: Vec<Label> = Vec::new();
    proof {
        assert(labels_model(empty_labels@) =~= Seq::<GLabel>::empty());
    }
    let mut samples: Vec<Sample> = Vec::new();
    samples.push(Sample { labels: empty_labels, value });
    proof {
        assert(samples_model(samples@) =~= seq![
            GSample { labels: Seq::<GLabel>::empty(), value: value as int },
        ]);
    }
    family(name, help, samples)
}

/// The family name `{kind}{suffix}`, as the request and media-server
/// families are prefixed by their instance kind.
pub fn prefixed_name(kind: &String, suffix: &str) -> (r: String)
    ensures
        r@ == kind@ + suffix@,
{
    let mut r = kind.clone();
    r.append(suffix);
    r
}

/// Registering a list of families in order.
pub open spec fn spec_merge_all(acc: Seq<GFamily>, fs: Seq<GFamily>) -> Seq<GFamily>
    decreases fs.len(),
{
    if fs.len() == 0 {
        acc
    } else {
        spec_merge_into(spec_merge_all(acc, fs.drop_last()), fs.last())
    }
}

/// Registers a list of families in order.
pub fn add_families(acc: &mut Vec<MetricFamily>, fams: Vec<MetricFamily>)
    ensures
        models(final(acc)@) == spec_merge_all(models(old(acc)@), models(fams@)),
{
    let ghost all = fams@;
    let ghost m0 = models(old(acc)@);
    let mut rest = fams;
    let total: usize = rest.len();
    let mut i: usize = 0;
    proof {
        assert(all.skip(0) =~= all);
        assert(all.take(0).map_values(|f: MetricFamily| f.model()) =~= Seq::<GFamily>::empty());
    }
    while rest.len() > 0
        invariant
            m0 == models(old(acc)@),
            all.len() == total,
            i + rest@.len() == all.len(),
            rest@ == all.skip(i as int),
            models(acc@) == spec_merge_all(m0, models(all.take(i as int))),
        decreases rest@.len(),
    {
        let f = rest.remove(0);
        proof {
            assert(all.skip(i as int)[0] == all[i as int]);
            assert(all.skip(i as int).remove(0) =~= all.skip(i + 1));
        }
        add_family(acc, f);
        proof {
            assert(models(all.take(i + 1)).drop_last() =~= models(all.take(i as int)));
            assert(models(all.take(i + 1)).last() == all[i as int].model());
            assert(models(acc@) == spec_merge_all(m0, models(all.take(i + 1))));
        }
        i += 1;
    }
    proof {
        assert(all.take(all.len() as int) =~= all);
    }
}

fn find_family(acc: &Vec<MetricFamily>, name: &str) -> (r: Option<usize>)
    ensures
        match r {
            Some(i) => i < acc@.len() && spec_find_family(models(acc@), name@) == i,
            None => spec_find_family(models(acc@), name@) == -1,
        },
{
    let mut i: usize = 0;
    proof {
        assert(models(acc@).skip(0) =~= models(acc@));
    }
    while i < acc.len()
        invariant
            i <= acc@.len(),
            spec_find_family(models(acc@), name@) == spec_find_family(
                models(acc@).skip(i as int),
                name@,
            ) + if spec_find_family(models(acc@).skip(i as int), name@) >= 0 {
                i as int
            } else {
                0int
            },
        decreases acc@.len() - i,
    {
        proof {
            assert(models(acc@).skip(i as int)[0] == acc@[i as int].model());
        }
        if str_eq(acc[i].name.as_str(), name) {
            return Some(i);
        }
        proof {
            assert(models(acc@).skip(i as int).drop_first() =~= models(acc@).skip(i + 1));
        }
        i += 1;
    }
    proof {
        assert(models(acc@).skip(acc@.len() as int) =~= Seq::<GFamily>::empty());
    }
    None
}

/// Registers one family: merges it into an existing family of the
/// same name, or appends it.
pub fn add_family(acc: &mut Vec<MetricFamily>, f: MetricFamily)
    ensures
        models(final(acc)@) == spec_merge_into(models(old(acc)@), f.model()),
{
    let ghost fm = f.model();
    let mut f = f;
    match find_family(acc, f.name.as_str()) {
        Some(at) => {
            let mut fam = acc.remove(at);
            fam.samples.append(&mut f.samples);
            proof {
                assert(samples_model(fam.samples@) =~= models(old(acc)@)[at as int].samples
                    + fm.samples);
            }
            acc.insert(at, fam);
            proof {
                assert(models(acc@) =~= spec_merge_into(models(old(acc)@), fm));
            }
        },
        None => {
            acc.push(f);
            proof {
                assert(models(acc@) =~= spec_merge_into(models(old(acc)@), fm));
            }
        },
    }
}

/// The whole document of one scrape, as a function of the results
/// and the format alone.
pub open spec fn spec_format_metrics(rs: Seq<crate::tasks::TaskResult>, format: Format) -> Seq<
    char,
> {
    spec_document(render::spec_scrape_families(rs), format)
}

/// Encodes one scrape: a fresh registry, every result's families
/// merged into it, and the document in the negotiated dialect. This
/// never fails; a scrape succeeds as long as the encoder runs.
pub fn format_metrics(results: &Vec<crate::tasks::TaskResult>, format: Format) -> (r: String)
    ensures
        r@ == spec_format_metrics(results@, format),
{
    let families = render::render_results(results);
    encode_families(&families, format)
}

proof fn lemma_sample_text_tail(name: Seq<char>, s: GSample)
    ensures
        spec_sample_text(name, s).len() >= 2,
        spec_sample_text(name, s).last() == '\n',
        crate::text::is_digit(
            spec_sample_text(name, s)[spec_sample_text(name, s).len() - 2],
        ),
{
    reveal_strlit("\n");
    crate::text::lemma_int_string_ends_with_digit(s.value);
    let t = spec_sample_text(name, s);
    let num = spec_int_string(s.value);
    assert(t.last() == "\n"@[0]);
    assert(t[t.len() - 2] == num.last());
}

/// A family's text always ends in a newline whose preceding character
/// is either the `e` of `gauge` or a digit — never the `F` of an
/// end-of-file marker.
proof fn lemma_family_text_tail(f: GFamily)
    ensures
        spec_family_text(f).len() >= 2,
        spec_family_text(f).last() == '\n',
        spec_family_text(f)[spec_family_text(f).len() - 2] == 'e' || crate::text::is_digit(
            spec_family_text(f)[spec_family_text(f).len() - 2],
        ),
{
    let t = spec_family_text(f);
    if f.samples.len() == 0 {
        reveal_strlit(" gauge\n");
        assert(spec_samples_text(f.name, f.samples).len() == 0);
        assert(t.last() == " gauge\n"@[6]);
        assert(t[t.len() - 2] == " gauge\n"@[5]);
    } else {
        let ss = spec_samples_text(f.name, f.samples);
        let last_sample = spec_sample_text(f.name, f.samples.last());
        lemma_sample_text_tail(f.name, f.samples.last());
        assert(ss.last() == last_sample.last());
        assert(ss[ss.len() - 2] == last_sample[last_sample.len() - 2]);
        assert(t.last() == ss.last());
        assert(t[t.len() - 2] == ss[ss.len() - 2]);
    }
}

/// The line-oriented dialect never carries the OpenMetrics trailer:
/// a non-empty Prometheus document ends with a family whose last line
/// closes on `gauge` or on a numeric value, so its final bytes are
/// never `# EOF` and a scraper can tell the dialects apart.
pub proof fn lemma_prometheus_document_has_no_eof_trailer(fs: Seq<GFamily>)
    ensures
        ({
            let doc = spec_document(fs, Format::Prometheus);
            doc.len() < 6 || doc.subrange(doc.len() - 6, doc.len() as int) != "# EOF\n"@
        }),
{
    reveal_strlit("# EOF\n");
    let doc = spec_document(fs, Format::Prometheus);
    if fs.len() > 0 && doc.len() >= 6 {
        let last_family = spec_family_text(fs.last());
        lemma_family_text_tail(fs.last());
        assert(doc.last() == last_family.last());
        assert(doc[doc.len() - 2] == last_family[last_family.len() - 2]);
        if doc.subrange(doc.len() - 6, doc.len() as int) == "# EOF\n"@ {
            assert(doc.subrange(doc.len() - 6, doc.len() as int)[4] == doc[doc.len() - 2]);
            assert(doc[doc.len() - 2] == 'F');
        }
    }
}

/// The OpenMetrics dialect always closes with the `# EOF` marker
/// line.
pub proof fn lemma_openmetrics_document_has_eof_trailer(fs: Seq<GFamily>)
    ensures
        ({
            let doc = spec_document(fs, Format::OpenMetrics);
            doc.len() >= 6 && doc.subrange(doc.len() - 6, doc.len() as int) == "# EOF\n"@
        }),
{
    reveal_strlit("# EOF\n");
    let doc = spec_document(fs, Format::OpenMetrics);
    assert(doc.subrange(doc.len() - 6, doc.len() as int) =~= "# EOF\n"@);
}

} // verus!
