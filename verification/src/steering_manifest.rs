//! A representation of a HLS steering manifest.
//!
//! Content steering allows content producers to group redundant
//! variant streams into "pathways" and to dynamically prioritize
//! access to different pathways. A manifest renders as a single compact
//! JSON object.

use vstd::prelude::*;
use vstd::string::{StrSliceExecFns, StringExecFns};

use crate::text::{lemma_add_assoc, lemma_add_empty_left, lemma_add_empty_right, push_char,
    push_u64, spec_dec};

verus! {

/// A steering manifest which identifies the available pathways
/// and their priority order.
#[derive(Debug, Clone)]
pub struct SteeringManifest {
    /// Specifies how many seconds the client must wait before
    /// reloading the Steering Manifest.
    pub ttl_seconds: u64,
    /// Specifies the URI the client must use the
    /// next time it obtains the Steering Manifest.
    pub reload_uri: Option<String>,
    /// A list of pathway IDs ordered from most preferred to least
    /// preferred.
    pub pathway_priority: Vec<String>,
    /// A list of novel pathways made by cloning existing ones.
    pub pathway_clones: Vec<PathwayClone>,
}

/// A way to introduce novel Pathways by cloning existing ones.
#[derive(Debug, Clone)]
pub struct PathwayClone {
    /// The ID of the base pathway, which this clone is based on.
    pub base_id: String,
    /// The ID of this new pathway.
    pub id: String,
    /// URI Replacement rules.
    pub uri_replacement: UriReplacement,
}

/// URI replacement rules.
#[derive(Debug, Clone)]
pub struct UriReplacement {
    /// If Some, replace the hostname of every rendition URI
    /// in the new pathway.
    pub host: Option<String>,
    /// URI params to append to every rendition URI in the new
    /// pathway, written in order.
    pub query_parameters: Option<Vec<(String, String)>>,
    /// If the `stable_variant_id` of a `VariantStream` on the new
    /// pathway appears as a key, set its URI to be the entry's value.
    pub per_variant_uris: Option<Vec<(String, String)>>,
    /// Key value pairs. If the `stable_rendition_id` of a rendition
    /// referred to by a `VariantStream` on the new pathway appears as a
    /// key, set its URI to be the entry's value.
    pub per_rendition_uris: Option<Vec<(String, String)>>,
}

/// The lowercase hexadecimal digit characters used in escape sequences.
pub open spec fn spec_hex_digit_lower(d: nat) -> char {
    if d == 0 {
        '0'
    } else if d == 1 {
        '1'
    } else if d == 2 {
        '2'
    } else if d == 3 {
        '3'
    } else if d == 4 {
        '4'
    } else if d == 5 {
        '5'
    } else if d == 6 {
        '6'
    } else if d == 7 {
        '7'
    } else if d == 8 {
        '8'
    } else if d == 9 {
        '9'
    } else if d == 10 {
        'a'
    } else if d == 11 {
        'b'
    } else if d == 12 {
        'c'
    } else if d == 13 {
        'd'
    } else if d == 14 {
        'e'
    } else {
        'f'
    }
}

/// How one character appears inside a JSON string: quotes and backslashes
/// are escaped, control characters take their short escapes or a
/// `\u00..` sequence, and every other character stands for itself.
pub open spec fn spec_json_char(c: char) -> Seq<char> {
    if c == '"' {
        "\\\""@
    } else if c == '\\' {
        "\\\\"@
    } else if c == '\u{8}' {
        "\\b"@
    } else if c == '\t' {
        "\\t"@
    } else if c == '\n' {
        "\\n"@
    } else if c == '\u{c}' {
        "\\f"@
    } else if c == '\r' {
        "\\r"@
    } else if (c as u32) < 0x20 {
        "\\u00"@ + seq![
            spec_hex_digit_lower((c as u32) as nat / 16),
            spec_hex_digit_lower((c as u32) as nat % 16),
        ]
    } else {
        seq![c]
    }
}

/// The escaped body of a JSON string.
pub open spec fn spec_json_escaped(s: Seq<char>) -> Seq<char>
    decreases s.len(),
{
    if s.len() == 0 {
        Seq::<char>::empty()
    } else {
        spec_json_escaped(s.drop_last()) + spec_json_char(s.last())
    }
}

/// A JSON string literal: the escaped body between double quotes.
pub open spec fn spec_json_string(s: Seq<char>) -> Seq<char> {
    "\""@ + spec_json_escaped(s) + "\""@
}

/// A JSON array of strings, without the brackets.
pub open spec fn spec_json_strings(items: Seq<String>) -> Seq<char>
    decreases items.len(),
{
    if items.len() == 0 {
        Seq::<char>::empty()
    } else if items.len() == 1 {
        spec_json_string(items[0]@)
    } else {
        spec_json_strings(items.drop_last()) + ","@ + spec_json_string(items.last()@)
    }
}

/// The members of a JSON object of string keys and string values, without
/// the braces, in the pairs' own order.
pub open spec fn spec_json_members(items: Seq<(String, String)>) -> Seq<char>
    decreases items.len(),
{
    if items.len() == 0 {
        Seq::<char>::empty()
    } else if items.len() == 1 {
        spec_json_string(items[0].0@) + ":"@ + spec_json_string(items[0].1@)
    } else {
        spec_json_members(items.drop_last()) + ","@ + spec_json_string(items.last().0@) + ":"@
            + spec_json_string(items.last().1@)
    }
}

fn hex_digit_lower(d: u8) -> (c: char)
    requires
        d < 16,
    ensures
        c == spec_hex_digit_lower(d as nat),
{
    match d {
        0 => '0',
        1 => '1',
        2 => '2',
        3 => '3',
        4 => '4',
        5 => '5',
        6 => '6',
        7 => '7',
        8 => '8',
        9 => '9',
        10 => 'a',
        11 => 'b',
        12 => 'c',
        13 => 'd',
        14 => 'e',
        _ => 'f',
    }
}

/// Appends one JSON string literal, escaping its content.
fn push_json_string(output: &mut String, s: &str)
    ensures
        final(output)@ == old(output)@ + spec_json_string(s@),
{
    broadcast use lemma_add_assoc;

    output.append("\"");
    let ghost base = output@;
    let n = s.unicode_len();
    let mut i: usize = 0;
    while i < n
        invariant
            0 <= i <= n,
            n == s@.len(),
            output@ == base + spec_json_escaped(s@.take(i as int)),
        decreases n - i,
    {
        broadcast use lemma_add_assoc;

        let c = s.get_char(i);
        if c == '"' {
            output.append("\\\"");
        } else if c == '\\' {
            output.append("\\\\");
        } else if c == '\u{8}' {
            output.append("\\b");
        } else if c == '\t' {
            output.append("\\t");
        } else if c == '\n' {
            output.append("\\n");
        } else if c == '\u{c}' {
            output.append("\\f");
        } else if c == '\r' {
            output.append("\\r");
        } else if (c as u32) < 0x20 {
            output.append("\\u00");
            let code = c as u32;
            push_char(output, hex_digit_lower((code / 16) as u8));
            push_char(output, hex_digit_lower((code % 16) as u8));
        } else {
            push_char(output, c);
        }
        proof {
            assert(s@.take(i + 1).drop_last() =~= s@.take(i as int));
            assert(s@.take(i + 1).last() == s@[i as int]);
        }
        i += 1;
    }
    proof {
        assert(s@.take(n as int) =~= s@);
    }
    output.append("\"");
}

/// Appends the members of a JSON object of string pairs, braces included.
fn push_json_object(output: &mut String, items: &Vec<(String, String)>)
    ensures
        final(output)@ == old(output)@ + "{"@ + spec_json_members(items@) + "}"@,
{
    broadcast use lemma_add_assoc;

    output.append("{");
    let ghost base = output@;
    let n = items.len();
    let mut i: usize = 0;
    while i < n
        invariant
            0 <= i <= n,
            n == items@.len(),
            output@ == base + spec_json_members(items@.take(i as int)),
        decreases n - i,
    {
        broadcast use lemma_add_assoc;

        if i > 0 {
            output.append(",");
        }
        push_json_string(output, items[i].0.as_str());
        output.append(":");
        push_json_string(output, items[i].1.as_str());
        proof {
            assert(items@.take(i + 1).drop_last() =~= items@.take(i as int));
            assert(items@.take(i + 1).last() == items@[i as int]);
        }
        i += 1;
    }
    proof {
        assert(items@.take(n as int) =~= items@);
    }
    output.append("}");
}

impl UriReplacement {
    /// A present host is non-empty, and no query parameter key is empty.
    pub open spec fn wf(&self) -> bool {
        &&& match self.host {
            Option::Some(host) => host@.len() > 0,
            Option::None => true,
        }
        &&& match self.query_parameters {
            Option::Some(params) => forall|i: int|
                0 <= i < params@.len() ==> (#[trigger] params@[i]).0@.len() > 0,
            Option::None => true,
        }
    }

    /// The JSON object of the replacement rules: only present rules are
    /// written, in the fixed order `HOST`, `PARAMS`, `PER-VARIANT-URIS`,
    /// `PER-RENDITION-URIS`, with no separator before the first.
    pub open spec fn spec_serialize(&self) -> Seq<char> {
        "{"@ + (match self.host {
            Option::Some(host) => "\"HOST\":"@ + spec_json_string(host@),
            Option::None => Seq::<char>::empty(),
        }) + (match self.query_parameters {
            Option::Some(params) => (if self.host is Some {
                ","@
            } else {
                Seq::<char>::empty()
            }) + "\"PARAMS\":"@ + "{"@ + spec_json_members(params@) + "}"@,
            Option::None => Seq::<char>::empty(),
        }) + (match self.per_variant_uris {
            Option::Some(uris) => (if self.host is Some || self.query_parameters is Some {
                ","@
            } else {
                Seq::<char>::empty()
            }) + "\"PER-VARIANT-URIS\":"@ + "{"@ + spec_json_members(uris@) + "}"@,
            Option::None => Seq::<char>::empty(),
        }) + (match self.per_rendition_uris {
            Option::Some(uris) => (if self.host is Some || self.query_parameters is Some
                || self.per_variant_uris is Some {
                ","@
            } else {
                Seq::<char>::empty()
            }) + "\"PER-RENDITION-URIS\":"@ + "{"@ + spec_json_members(uris@) + "}"@,
            Option::None => Seq::<char>::empty(),
        }) + "}"@
    }

    /// Writes the replacement rules as a JSON object.
    ///
    /// Callers must uphold the manifest invariants: a present host is
    /// non-empty and no query parameter key is empty.
    #[verifier::rlimit(60)]
    pub fn serialize(&self, output: &mut String)
        requires
            self.wf(),
        ensures
            final(output)@ == old(output)@ + self.spec_serialize(),
    {
        broadcast use lemma_add_assoc, lemma_add_empty_left, lemma_add_empty_right;

        output.append("{");
        let mut has_written_field = false;
        if let Option::Some(host) = &self.host {
            has_written_field = true;
            output.append("\"HOST\":");
            push_json_string(output, host.as_str());
        }
        if let Option::Some(params) = &self.query_parameters {
            if has_written_field {
                output.append(",");
            }
            output.append("\"PARAMS\":");
            push_json_object(output, params);
            has_written_field = true;
        }
        if let Option::Some(uris) = &self.per_variant_uris {
            if has_written_field {
                output.append(",");
            }
            output.append("\"PER-VARIANT-URIS\":");
            push_json_object(output, uris);
            has_written_field = true;
        }
        if let Option::Some(uris) = &self.per_rendition_uris {
            if has_written_field {
                output.append(",");
            }
            output.append("\"PER-RENDITION-URIS\":");
            push_json_object(output, uris);
        }
        output.append("}");
    }
}

impl PathwayClone {
    /// The JSON object describing one pathway clone.
    pub open spec fn spec_serialize(&self) -> Seq<char> {
        "{\"BASE-ID\":"@ + spec_json_string(self.base_id@) + ",\"ID\":"@ + spec_json_string(
            self.id@,
        ) + ",\"URI-REPLACEMENT\":"@ + self.uri_replacement.spec_serialize() + "}"@
    }

    /// Writes this clone as a JSON object.
    pub fn serialize(&self, output: &mut String)
        requires
            self.uri_replacement.wf(),
        ensures
            final(output)@ == old(output)@ + self.spec_serialize(),
    {
        broadcast use lemma_add_assoc;

        output.append("{\"BASE-ID\":");
        push_json_string(output, self.base_id.as_str());
        output.append(",\"ID\":");
        push_json_string(output, self.id.as_str());
        output.append(",\"URI-REPLACEMENT\":");
        self.uri_replacement.serialize(output);
        output.append("}");
    }
}

/// The pathway clone objects of a manifest, without the brackets.
pub open spec fn spec_clones_chars(clones: Seq<PathwayClone>) -> Seq<char>
    decreases clones.len(),
{
    if clones.len() == 0 {
        Seq::<char>::empty()
    } else if clones.len() == 1 {
        clones[0].spec_serialize()
    } else {
        spec_clones_chars(clones.drop_last()) + ","@ + clones.last().spec_serialize()
    }
}

impl SteeringManifest {
    /// The pathway priority list is non-empty and every clone's
    /// replacement rules are well formed.
    pub open spec fn wf(&self) -> bool {
        &&& self.pathway_priority@.len() > 0
        &&& forall|i: int|
            0 <= i < self.pathway_clones@.len() ==> (#[trigger] self.pathway_clones@[i])
                .uri_replacement.wf()
    }

    /// The manifest's compact JSON rendering: version, time to live, the
    /// optional reload URI, the pathway priority list, and the pathway
    /// clones when there are any.
    pub open spec fn spec_serialize(&self) -> Seq<char> {
        "{\"VERSION\":1,\"TTL\":"@ + spec_dec(self.ttl_seconds as nat) + (match self.reload_uri {
            Option::Some(uri) => ",\"RELOAD-URI\":"@ + spec_json_string(uri@),
            Option::None => Seq::<char>::empty(),
        }) + ",\"PATHWAY-PRIORITY\":["@ + spec_json_strings(self.pathway_priority@) + "]"@ + (
        if self.pathway_clones@.len() == 0 {
            Seq::<char>::empty()
        } else {
            ",\"PATHWAY-CLONES\":["@ + spec_clones_chars(self.pathway_clones@) + "]"@
        }) + "}"@
    }

    /// Serializes the manifest into its json representation.
    /// Guaranteed to write valid UTF-8 only.
    ///
    /// This does not percent encode [`UriReplacement::query_parameters`].
    ///
    /// A number of invariants mirroring the requirements of the HLS spec
    /// must be upheld when making a call to this method; they are the
    /// preconditions below.
    #[verifier::rlimit(60)]
    pub fn serialize(&self, output: &mut String)
        requires
            self.wf(),
        ensures
            final(output)@ == old(output)@ + self.spec_serialize(),
    {
        broadcast use lemma_add_assoc, lemma_add_empty_left, lemma_add_empty_right;

        output.append("{\"VERSION\":1,\"TTL\":");
        push_u64(output, self.ttl_seconds);
        if let Option::Some(uri) = &self.reload_uri {
            output.append(",\"RELOAD-URI\":");
            push_json_string(output, uri.as_str());
        }
        output.append(",\"PATHWAY-PRIORITY\":[");
        let ghost base = output@;
        let n = self.pathway_priority.len();
        let mut i: usize = 0;
        while i < n
            invariant
                0 <= i <= n,
                n == self.pathway_priority@.len(),
                output@ == base + spec_json_strings(self.pathway_priority@.take(i as int)),
            decreases n - i,
        {
            broadcast use lemma_add_assoc;

            if i > 0 {
                output.append(",");
            }
            push_json_string(output, self.pathway_priority[i].as_str());
            proof {
                assert(self.pathway_priority@.take(i + 1).drop_last()
                    =~= self.pathway_priority@.take(i as int));
                assert(self.pathway_priority@.take(i + 1).last()
                    == self.pathway_priority@[i as int]);
            }
            i += 1;
        }
        proof {
            assert(self.pathway_priority@.take(n as int) =~= self.pathway_priority@);
        }
        output.append("]");
        if self.pathway_clones.len() > 0 {
            output.append(",\"PATHWAY-CLONES\":[");
            let ghost base2 = output@;
            let m = self.pathway_clones.len();
            let mut j: usize = 0;
            while j < m
                invariant
                    0 <= j <= m,
                    m == self.pathway_clones@.len(),
                    forall|k: int|
                        0 <= k < m ==> (#[trigger] self.pathway_clones@[k]).uri_replacement.wf(),
                    output@ == base2 + spec_clones_chars(self.pathway_clones@.take(j as int)),
                decreases m - j,
            {
                broadcast use lemma_add_assoc;

                if j > 0 {
                    output.append(",");
                }
                self.pathway_clones[j].serialize(output);
                proof {
                    assert(self.pathway_clones@.take(j + 1).drop_last()
                        =~= self.pathway_clones@.take(j as int));
                    assert(self.pathway_clones@.take(j + 1).last()
                        == self.pathway_clones@[j as int]);
                }
                j += 1;
            }
            proof {
                assert(self.pathway_clones@.take(m as int) =~= self.pathway_clones@);
            }
            output.append("]");
        }
        output.append("}");
    }
}

} // verus!
