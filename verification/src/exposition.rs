//! The Prometheus text exposition encoding of a registry: for each run of
//! samples that share a metric name, a HELP line and a gauge TYPE line, then
//! one sample line per instance.

use vstd::prelude::*;

use crate::numbers::spec_micros_str;
use crate::numbers::micros_str;
use crate::prom_exporter::MetricSample;
use crate::prom_exporter::Registry;

verus! {

/// One rendered label: `key="value"`.
pub open spec fn label_text(l: (String, String)) -> Seq<char> {
    l.0@ + "=\""@ + l.1@ + "\""@
}

/// The rendered labels from index `j` on, separated by commas.
pub open spec fn labels_inner_from(ls: Seq<(String, String)>, j: int) -> Seq<char>
    decreases ls.len() - j,
{
    if j < 0 || j >= ls.len() {
        Seq::empty()
    } else if j == ls.len() - 1 {
        label_text(ls[j])
    } else {
        label_text(ls[j]) + ","@ + labels_inner_from(ls, j + 1)
    }
}

/// The rendered label set: empty when there are no labels, else the labels
/// in braces.
pub open spec fn labels_text(ls: Seq<(String, String)>) -> Seq<char> {
    if ls.len() == 0 {
        Seq::empty()
    } else {
        "{"@ + labels_inner_from(ls, 0) + "}"@
    }
}

/// The HELP and TYPE lines that open the block of a metric name.
pub open spec fn header_text(m: MetricSample) -> Seq<char> {
    "# HELP "@ + m.name@ + " "@ + m.help@ + "\n# TYPE "@ + m.name@ + " gauge\n"@
}

/// One sample line: the name, the label set, a space, and the value.
pub open spec fn line_text(m: MetricSample) -> Seq<char> {
    m.name@ + labels_text(m.labels@) + " "@ + spec_micros_str(m.value_micros as int) + "\n"@
}

/// The document from sample `i` on: a header wherever the name differs from
/// the sample before, then the sample line.
pub open spec fn doc_from(samples: Seq<MetricSample>, i: int) -> Seq<char>
    decreases samples.len() - i,
{
    if i < 0 || i >= samples.len() {
        Seq::empty()
    } else {
        (if i == 0 || samples[i - 1].name@ != samples[i].name@ {
            header_text(samples[i])
        } else {
            Seq::empty()
        }) + line_text(samples[i]) + doc_from(samples, i + 1)
    }
}

/// The full exposition document of a registry's samples.
pub open spec fn spec_doc(samples: Seq<MetricSample>) -> Seq<char> {
    doc_from(samples, 0)
}

/// Appends the rendered label set of `m` to `out`.
fn append_labels(out: &mut String, labels: &Vec<(String, String)>)
    ensures
        final(out)@ == old(out)@ + labels_text(labels@),
{
    let n: usize = labels.len();
    if n == 0 {
        assert(old(out)@ + labels_text(labels@) =~= old(out)@);
        return ;
    }
    out.append("{");
    for j in 0..n
        invariant
            n == labels@.len(),
            n > 0,
            j < n ==> out@ + labels_inner_from(labels@, j as int) == old(out)@ + "{"@
                + labels_inner_from(labels@, 0),
            j == n ==> out@ == old(out)@ + "{"@ + labels_inner_from(labels@, 0),
    {
        let l: &(String, String) = &labels[j];
        out.append(l.0.as_str());
        out.append("=\"");
        out.append(l.1.as_str());
        out.append("\"");
        if j + 1 < n {
            out.append(",");
            assert(labels_inner_from(labels@, j as int) =~= label_text(labels@[j as int]) + ","@
                + labels_inner_from(labels@, j + 1));
            assert(out@ + labels_inner_from(labels@, j + 1) =~= old(out)@ + "{"@
                + labels_inner_from(labels@, 0));
        } else {
            assert(labels_inner_from(labels@, j as int) =~= label_text(labels@[j as int]));
            assert(out@ =~= old(out)@ + "{"@ + labels_inner_from(labels@, 0));
        }
    }
    out.append("}");
    assert(out@ =~= old(out)@ + labels_text(labels@));
}

/// Appends the HELP and TYPE lines of `m` to `out`.
fn append_header(out: &mut String, m: &MetricSample)
    ensures
        final(out)@ == old(out)@ + header_text(*m),
{
    out.append("# HELP ");
    out.append(m.name.as_str());
    out.append(" ");
    out.append(m.help.as_str());
    out.append("\n# TYPE ");
    out.append(m.name.as_str());
    out.append(" gauge\n");
    assert(out@ =~= old(out)@ + header_text(*m));
}

/// Appends the sample line of `m` to `out`.
fn append_line(out: &mut String, m: &MetricSample)
    requires
        m.value_micros > i128::MIN,
    ensures
        final(out)@ == old(out)@ + line_text(*m),
{
    out.append(m.name.as_str());
    append_labels(out, &m.labels);
    out.append(" ");
    let value = micros_str(m.value_micros);
    out.append(value.as_str());
    out.append("\n");
    assert(out@ =~= old(out)@ + line_text(*m));
}

/// Encodes the registry into the text exposition format.
pub fn encode_registry(reg: &Registry) -> (out: String)
    requires
        forall|j: int|
            0 <= j < reg.samples@.len() ==> i128::MIN < (#[trigger] reg.samples@[j]).value_micros,
    ensures
        out@ == spec_doc(reg.samples@),
{
    let mut out = String::new();
    let n: usize = reg.samples.len();
    assert(out@ =~= Seq::<char>::empty());
    for i in 0..n
        invariant
            n == reg.samples@.len(),
            forall|j: int|
                0 <= j < reg.samples@.len() ==> i128::MIN < (
                #[trigger] reg.samples@[j]).value_micros,
            out@ + doc_from(reg.samples@, i as int) == spec_doc(reg.samples@),
    {
        let m: &MetricSample = &reg.samples[i];
        let new_family: bool = if i == 0 {
            true
        } else {
            !(reg.samples[i - 1].name == m.name)
        };
        if new_family {
            append_header(&mut out, m);
        }
        append_line(&mut out, m);
        proof {
            let samples = reg.samples@;
            let hdr = if i == 0 || samples[i as int - 1].name@ != samples[i as int].name@ {
                header_text(samples[i as int])
            } else {
                Seq::<char>::empty()
            };
            assert(doc_from(samples, i as int) == hdr + line_text(samples[i as int]) + doc_from(
                samples,
                i + 1,
            ));
            assert(out@ + doc_from(samples, i + 1) =~= spec_doc(samples));
        }
    }
    assert(doc_from(reg.samples@, n as int) =~= Seq::<char>::empty());
    assert(out@ =~= spec_doc(reg.samples@));
    out
}

} // verus!
