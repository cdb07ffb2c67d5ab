use vstd::prelude::*;

use crate::snapshot::SystemStats;

verus! {

/// The text that num_format's `to_formatted_string` gives for `n` under the
/// `en` locale: its decimal digits grouped by thousands.
pub uninterp spec fn en_grouped(n: nat) -> Seq<char>;

/// The text that humansize's `format_size` gives for `n` bytes with binary
/// (IEC) units.
pub uninterp spec fn binary_size(n: nat) -> Seq<char>;

/// Relies on num_format's `ToFormattedString::to_formatted_string` with
/// `Locale::en`: the text depends on `n` alone. Writing into a `String` cannot
/// fail, so the `unwrap` inside it does not panic.
#[verifier::external_body]
fn grouped_count(n: usize) -> (r: String)
    ensures
        r@ == en_grouped(n as nat),
{
    num_format::ToFormattedString::to_formatted_string(&n, &num_format::Locale::en)
}

/// Relies on humansize's `format_size` with the `BINARY` options: the text
/// depends on `n` alone.
#[verifier::external_body]
fn size_text(n: usize) -> (r: String)
    ensures
        r@ == binary_size(n as nat),
{
    humansize::format_size(n, humansize::BINARY)
}

/// One line of the report: a tab, the field's name, a colon and its value.
pub open spec fn field_line(label: Seq<char>, value: Seq<char>) -> Seq<char> {
    "\t"@ + label + ": "@ + value + "\n"@
}

/// The line of an average, present only when the average is.
pub open spec fn average_line(label: Seq<char>, avg: Option<usize>) -> Seq<char> {
    match avg {
        Some(v) => field_line(label, binary_size(v as nat)),
        None => Seq::empty(),
    }
}

impl SystemStats {
    /// The report: counts grouped by thousands, sizes in binary units, and a
    /// line for each average that is present.
    pub open spec fn report_text(&self) -> Seq<char> {
        "SystemStats {\n"@
            + field_line("alloc_count"@, en_grouped(self.alloc_count as nat))
            + average_line("alloc_avg"@, self.alloc_avg)
            + field_line("dealloc_count"@, en_grouped(self.dealloc_count as nat))
            + average_line("dealloc_avg"@, self.dealloc_avg)
            + field_line("realloc_growth_count"@, en_grouped(self.realloc_growth_count as nat))
            + average_line("realloc_growth_avg"@, self.realloc_growth_avg)
            + field_line("realloc_shrink_count"@, en_grouped(self.realloc_shrink_count as nat))
            + average_line("realloc_shrink_avg"@, self.realloc_shrink_avg)
            + field_line("use_curr"@, binary_size(self.use_curr as nat))
            + field_line("use_max"@, binary_size(self.use_max as nat))
            + "}\n"@
    }

    /// Renders the summary as text, one field per line.
    pub fn report(&self) -> (r: String)
        ensures
            r@ == self.report_text(),
    {
        let mut out = String::from_str("SystemStats {\n");
        push_line(&mut out, "alloc_count", &grouped_count(self.alloc_count));
        push_average_line(&mut out, "alloc_avg", self.alloc_avg);
        push_line(&mut out, "dealloc_count", &grouped_count(self.dealloc_count));
        push_average_line(&mut out, "dealloc_avg", self.dealloc_avg);
        push_line(&mut out, "realloc_growth_count", &grouped_count(self.realloc_growth_count));
        push_average_line(&mut out, "realloc_growth_avg", self.realloc_growth_avg);
        push_line(&mut out, "realloc_shrink_count", &grouped_count(self.realloc_shrink_count));
        push_average_line(&mut out, "realloc_shrink_avg", self.realloc_shrink_avg);
        push_line(&mut out, "use_curr", &size_text(self.use_curr));
        push_line(&mut out, "use_max", &size_text(self.use_max));
        out.append("}\n");
        out
    }
}

fn push_line(out: &mut String, label: &str, value: &String)
    ensures
        final(out)@ == old(out)@ + field_line(label@, value@),
{
    out.append("\t");
    out.append(label);
    out.append(": ");
    out.append(value.as_str());
    out.append("\n");
    assert(out@ =~= old(out)@ + field_line(label@, value@));
}

fn push_average_line(out: &mut String, label: &str, avg: Option<usize>)
    ensures
        final(out)@ == old(out)@ + average_line(label@, avg),
{
    match avg {
        Some(v) => push_line(out, label, &size_text(v)),
        None => {
            assert(old(out)@ + Seq::<char>::empty() =~= old(out)@);
        },
    }
}

} // verus!
