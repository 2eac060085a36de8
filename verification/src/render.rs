//! Rendering the generated implementation as source text: a method that, on
//! a borrowed instance, builds a fresh vector of (display name, type-erased
//! borrow) pairs, one per field, in declaration order, and hands it out as
//! an iterator.

use vstd::prelude::*;
use vstd::string::StrSliceExecFns;
use vstd::string::StringExecFns;
use crate::generate::{FieldEntry, IterImpl};

verus! {

/// Relies on String::push: appends the single character `c` to the string.
#[verifier::external_body]
fn push_char(s: &mut String, c: char)
    ensures
        final(s)@ == old(s)@ + seq![c],
{
    s.push(c);
}

/// How one character of a display name stands inside the emitted string
/// literal: backslash, double quote and the common control characters are
/// escaped; every other character stands as itself.
pub open spec fn spec_escaped_char(c: char) -> Seq<char> {
    if c == '\\' {
        seq!['\\', '\\']
    } else if c == '"' {
        seq!['\\', '"']
    } else if c == '\n' {
        seq!['\\', 'n']
    } else if c == '\r' {
        seq!['\\', 'r']
    } else if c == '\t' {
        seq!['\\', 't']
    } else {
        seq![c]
    }
}

/// A display name as it stands inside the emitted string literal.
pub open spec fn spec_escaped(s: Seq<char>) -> Seq<char>
    decreases s.len(),
{
    if s.len() == 0 {
        Seq::empty()
    } else {
        spec_escaped_char(s[0]) + spec_escaped(s.drop_first())
    }
}

proof fn lemma_escaped_push(s: Seq<char>, c: char)
    ensures
        spec_escaped(s.push(c)) == spec_escaped(s) + spec_escaped_char(c),
    decreases s.len(),
{
    if s.len() == 0 {
        assert(s.push(c)[0] == c);
        assert(s.push(c).drop_first() =~= Seq::<char>::empty());
        assert(spec_escaped(s.push(c)) == spec_escaped_char(c) + spec_escaped(
            Seq::<char>::empty(),
        ));
        assert(spec_escaped(s.push(c)) =~= spec_escaped(s) + spec_escaped_char(c));
    } else {
        lemma_escaped_push(s.drop_first(), c);
        assert(s.push(c).drop_first() =~= s.drop_first().push(c));
        assert(s.push(c)[0] == s[0]);
        assert(spec_escaped(s.push(c)) == spec_escaped_char(s[0]) + (spec_escaped(s.drop_first())
            + spec_escaped_char(c)));
        assert(spec_escaped(s.push(c)) =~= spec_escaped(s) + spec_escaped_char(c));
    }
}

/// Escape a display name for emission inside a double-quoted string literal.
pub fn escaped(s: &str) -> (r: String)
    ensures
        r@ == spec_escaped(s@),
{
    let n = s.unicode_len();
    let mut out = String::new();
    let mut i: usize = 0;
    proof {
        assert(s@.take(0) =~= Seq::<char>::empty());
    }
    while i < n
        invariant
            i <= n,
            n == s@.len(),
            out@ == spec_escaped(s@.take(i as int)),
        decreases n - i,
    {
        let c = s.get_char(i);
        if c == '\\' || c == '"' {
            push_char(&mut out, '\\');
            push_char(&mut out, c);
        } else if c == '\n' {
            push_char(&mut out, '\\');
            push_char(&mut out, 'n');
        } else if c == '\r' {
            push_char(&mut out, '\\');
            push_char(&mut out, 'r');
        } else if c == '\t' {
            push_char(&mut out, '\\');
            push_char(&mut out, 't');
        } else {
            push_char(&mut out, c);
        }
        proof {
            lemma_escaped_push(s@.take(i as int), s@[i as int]);
            assert(s@.take(i as int + 1) =~= s@.take(i as int).push(s@[i as int]));
            assert(out@ =~= spec_escaped(s@.take(i as int + 1)));
        }
        i += 1;
    }
    proof {
        assert(s@.take(n as int) =~= s@);
    }
    out
}

/// The opening of the emitted implementation, up to the first entry.
pub open spec fn spec_header(name: Seq<char>) -> Seq<char> {
    "impl Iterable for "@ + name
        + " {\n    fn iter<'a>(&'a self) -> std::vec::IntoIter<(&'static str, &'a dyn std::any::Any)> {\n        vec![\n"@
}

/// One emitted entry: a pair of the display name as a string literal and a
/// borrow of the field's value on `self`, erased to a borrow of any value.
pub open spec fn spec_entry_line(name: Seq<char>, ident: Seq<char>) -> Seq<char> {
    "            (\""@ + spec_escaped(name) + "\", &(self."@ + ident
        + ") as &dyn std::any::Any),\n"@
}

/// The emitted entries, in entry order.
pub open spec fn spec_entry_lines(entries: Seq<FieldEntry>) -> Seq<char>
    decreases entries.len(),
{
    if entries.len() == 0 {
        Seq::empty()
    } else {
        spec_entry_line(entries[0]@.0, entries[0]@.1) + spec_entry_lines(entries.drop_first())
    }
}

/// The close of the emitted implementation: the vector handed out as an
/// iterator.
pub open spec fn spec_footer() -> Seq<char> {
    "        ].into_iter()\n    }\n}\n"@
}

/// The whole emitted implementation for one generated result.
pub open spec fn spec_render(g: IterImpl) -> Seq<char> {
    spec_header(g.struct_name@) + spec_entry_lines(g.entries@) + spec_footer()
}

proof fn lemma_entry_lines_push(entries: Seq<FieldEntry>, e: FieldEntry)
    ensures
        spec_entry_lines(entries.push(e)) == spec_entry_lines(entries) + spec_entry_line(
            e@.0,
            e@.1,
        ),
    decreases entries.len(),
{
    if entries.len() == 0 {
        assert(entries.push(e)[0] == e);
        assert(entries.push(e).drop_first() =~= Seq::<FieldEntry>::empty());
        assert(spec_entry_lines(entries.push(e)) == spec_entry_line(e@.0, e@.1)
            + spec_entry_lines(Seq::<FieldEntry>::empty()));
        assert(spec_entry_lines(entries.push(e)) =~= spec_entry_lines(entries) + spec_entry_line(
            e@.0,
            e@.1,
        ));
    } else {
        lemma_entry_lines_push(entries.drop_first(), e);
        assert(entries.push(e).drop_first() =~= entries.drop_first().push(e));
        assert(entries.push(e)[0] == entries[0]);
        assert(spec_entry_lines(entries.push(e)) == spec_entry_line(entries[0]@.0, entries[0]@.1)
            + (spec_entry_lines(entries.drop_first()) + spec_entry_line(e@.0, e@.1)));
        assert(spec_entry_lines(entries.push(e)) =~= spec_entry_lines(entries) + spec_entry_line(
            e@.0,
            e@.1,
        ));
    }
}

impl IterImpl {
    /// Emit the implementation source: the enumeration method whose body
    /// builds, on each call, a fresh vector with one pair per entry, in
    /// entry order, and turns it into an iterator.
    pub fn render(&self) -> (r: String)
        ensures
            r@ == spec_render(*self),
    {
        let mut out = String::from_str("impl Iterable for ");
        out.append(self.struct_name.as_str());
        out.append(
            " {\n    fn iter<'a>(&'a self) -> std::vec::IntoIter<(&'static str, &'a dyn std::any::Any)> {\n        vec![\n",
        );
        let mut i: usize = 0;
        proof {
            assert(self.entries@.take(0) =~= Seq::<FieldEntry>::empty());
            assert(out@ =~= spec_header(self.struct_name@) + spec_entry_lines(
                self.entries@.take(0),
            ));
        }
        while i < self.entries.len()
            invariant
                i <= self.entries@.len(),
                out@ == spec_header(self.struct_name@) + spec_entry_lines(
                    self.entries@.take(i as int),
                ),
            decreases self.entries@.len() - i,
        {
            out.append("            (\"");
            let esc = escaped(self.entries[i].name.as_str());
            out.append(esc.as_str());
            out.append("\", &(self.");
            out.append(self.entries[i].ident.as_str());
            out.append(") as &dyn std::any::Any),\n");
            proof {
                lemma_entry_lines_push(self.entries@.take(i as int), self.entries@[i as int]);
                assert(self.entries@.take(i as int + 1) =~= self.entries@.take(i as int).push(
                    self.entries@[i as int],
                ));
                assert(out@ =~= spec_header(self.struct_name@) + spec_entry_lines(
                    self.entries@.take(i as int + 1),
                ));
            }
            i += 1;
        }
        out.append("        ].into_iter()\n    }\n}\n");
        proof {
            assert(self.entries@.take(self.entries@.len() as int) =~= self.entries@);
            assert(out@ =~= spec_render(*self));
        }
        out
    }
}

} // verus!
