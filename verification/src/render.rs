//! The relay's word on itself, as JSON for a client to read.

use crate::error::Error;
use crate::outside::{json_string, quoted};
use crate::setting::{opt_text, InformationView, Setting};
use vstd::prelude::*;

verus! {

/// One member of the object: two spaces, the key, and the value or `null`.
pub open spec fn member(key: Seq<char>, value: Option<Seq<char>>) -> Seq<char> {
    "  \""@ + key + "\": "@ + match value {
        Some(text) => json_string(text),
        None => "null"@,
    }
}

impl InformationView {
    /// The section as a JSON object, one member to a line in the order of
    /// the fields, a field without a value as `null`.
    pub open spec fn rendered(self) -> Seq<char> {
        "{\n"@ + member("name"@, self.name) + ",\n"@ + member("description"@, self.description)
            + ",\n"@ + member("pubkey"@, self.pubkey) + ",\n"@ + member("contact"@, self.contact)
            + "\n}"@
    }
}

fn push_member(out: &mut String, key: &str, value: &Option<String>)
    ensures
        final(out)@ == old(out)@ + member(key@, opt_text(*value)),
{
    out.append("  \"");
    out.append(key);
    out.append("\": ");
    match value {
        Some(text) => {
            let q = quoted(text.as_str());
            out.append(q.as_str());
        },
        None => {
            out.append("null");
        },
    }
    assert(out@ =~= old(out)@ + member(key@, opt_text(*value)));
}

impl Setting {
    /// Renders the section `information` as indented JSON.
    pub fn render_information(&self) -> (r: Result<String, Error>)
        ensures
            r matches Ok(text) && text@ == self.information@.rendered(),
    {
        let mut out = String::from_str("{\n");
        push_member(&mut out, "name", &self.information.name);
        out.append(",\n");
        push_member(&mut out, "description", &self.information.description);
        out.append(",\n");
        push_member(&mut out, "pubkey", &self.information.pubkey);
        out.append(",\n");
        push_member(&mut out, "contact", &self.information.contact);
        out.append("\n}");
        Ok(out)
    }
}

} // verus!
