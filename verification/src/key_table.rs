//! The table of API keys on a customer's page.

use vstd::prelude::*;
use vstd::string::*;

use crate::api_keys;
use crate::api_keys::KeyView;
use crate::json;
use crate::json::JsonNodes;
use crate::text;

verus! {

/// One line of the table. Keys that are not active can be neither rotated nor revoked.
pub struct KeyRow {
    pub name: String,
    pub prefix: String,
    pub environment: String,
    pub scopes: String,
    pub status: String,
    pub active: bool,
}

/// One line of the table, as a mathematical value.
pub struct RowView {
    pub name: Seq<char>,
    pub prefix: Seq<char>,
    pub environment: Seq<char>,
    pub scopes: Seq<char>,
    pub status: Seq<char>,
    pub active: bool,
}

impl View for KeyRow {
    type V = RowView;

    open spec fn view(&self) -> RowView {
        RowView {
            name: self.name@,
            prefix: self.prefix@,
            environment: self.environment@,
            scopes: self.scopes@,
            status: self.status@,
            active: self.active,
        }
    }
}

/// The text of a member, or an empty one.
pub open spec fn cell(display: JsonNodes, key: Seq<char>) -> Seq<char> {
    match json::member_text(display, key) {
        Some(s) => s,
        None => ""@,
    }
}

/// The line for a key.
pub open spec fn row_of(display: JsonNodes) -> RowView {
    RowView {
        name: cell(display, "name"@),
        prefix: cell(display, "prefix"@),
        environment: cell(display, "environment"@),
        scopes: cell(display, "scopes"@),
        status: cell(display, "status"@),
        active: json::member_text(display, "status"@) == Some("active"@),
    }
}

/// The text of a member, or an empty one.
fn cell_text(display: &serde_json::Value, key: &str) -> (r: String)
    ensures
        r@ == cell(json::json_nodes(*display), key@),
{
    match json::text_member(display, key) {
        Some(s) => s.to_owned(),
        None => "".to_owned(),
    }
}

/// The line for a key.
pub fn key_row(display: &serde_json::Value) -> (r: KeyRow)
    ensures
        r@ == row_of(json::json_nodes(*display)),
{
    let active = match json::text_member(display, "status") {
        Some(status) => text::same(status, "active"),
        None => false,
    };
    KeyRow {
        name: cell_text(display, "name"),
        prefix: cell_text(display, "prefix"),
        environment: cell_text(display, "environment"),
        scopes: cell_text(display, "scopes"),
        status: cell_text(display, "status"),
        active,
    }
}

/// The lines for a list of keys.
pub fn key_rows(keys: &Vec<serde_json::Value>) -> (r: Vec<KeyRow>)
    ensures
        r@.map_values(|row: KeyRow| row@) == json::nodes_of(keys@).map_values(
            |display: JsonNodes| row_of(display),
        ),
{
    let mut rows: Vec<KeyRow> = Vec::new();
    let mut i: usize = 0;
    while i < keys.len()
        invariant
            i <= keys.len(),
            rows@.len() == i,
            forall|j: int|
                0 <= j < i ==> (#[trigger] rows@[j])@ == row_of(json::json_nodes(keys@[j])),
        decreases keys.len() - i,
    {
        rows.push(key_row(&keys[i]));
        i += 1;
    }
    assert(rows@.map_values(|row: KeyRow| row@) =~= json::nodes_of(keys@).map_values(
        |display: JsonNodes| row_of(display),
    ));
    rows
}

/// The line for a key that is shown tells what the key is, and offers to rotate or revoke it
/// unless it was revoked.
pub proof fn law_rows_tell_the_key(key: KeyView)
    ensures
        row_of(api_keys::shown(key)) == (RowView {
            name: key.name,
            prefix: api_keys::prefix_of(key.env, key.key_id),
            environment: key.env,
            scopes: text::joined(key.scopes, ", "@),
            status: if key.revoked {
                "revoked"@
            } else {
                "active"@
            },
            active: !key.revoked,
        }),
{
    reveal_strlit("id");
    reveal_strlit("name");
    reveal_strlit("prefix");
    reveal_strlit("scopes");
    reveal_strlit("last_used");
    reveal_strlit("status");
    reveal_strlit("environment");
    reveal_strlit("require_idempotency");
    reveal_strlit("version");
    reveal_strlit("active");
    reveal_strlit("revoked");
    assert("id"@.len() == 2);
    assert("name"@.len() == 4);
    assert("prefix"@.len() == 6);
    assert("scopes"@.len() == 6);
    assert("last_used"@.len() == 9);
    assert("status"@.len() == 6);
    assert("environment"@.len() == 11);
    assert("require_idempotency"@.len() == 19);
    assert("version"@.len() == 7);
    assert("active"@.len() == 6);
    assert("revoked"@.len() == 7);
    assert("prefix"@[0] != "scopes"@[0]);
    assert("prefix"@[0] != "status"@[0]);
    assert("scopes"@[1] != "status"@[1]);
    let members = map![
        "id"@ => json::text_nodes(key.key_id),
        "name"@ => json::text_nodes(key.name),
        "prefix"@ => json::text_nodes(api_keys::prefix_of(key.env, key.key_id)),
        "scopes"@ => json::text_nodes(text::joined(key.scopes, ", "@)),
        "last_used"@ => json::text_nodes(
            if key.last_used_ms is Some { "recently"@ } else { "never"@ },
        ),
        "status"@ => json::text_nodes(if key.revoked { "revoked"@ } else { "active"@ }),
        "environment"@ => json::text_nodes(key.env),
        "require_idempotency"@ => json::flag_nodes(key.require_idempotency),
        "version"@ => json::integer_nodes(key.version as int),
    ];
    json::lemma_object_member(members, "name"@);
    json::lemma_object_member(members, "prefix"@);
    json::lemma_object_member(members, "scopes"@);
    json::lemma_object_member(members, "status"@);
    json::lemma_object_member(members, "environment"@);
    let display = api_keys::shown(key);
    assert(display == json::object_nodes(members));
    assert(members["name"@] == json::text_nodes(key.name));
    assert(json::member_text(display, "name"@) == Some(key.name));
    assert(members["prefix"@] == json::text_nodes(api_keys::prefix_of(key.env, key.key_id)));
    assert(json::member_text(display, "prefix"@) is Some);
    assert(json::member_text(display, "environment"@) == Some(key.env));
    assert(json::member_text(display, "scopes"@) is Some);
    assert(json::member_text(display, "status"@) == Some(
        if key.revoked {
            "revoked"@
        } else {
            "active"@
        },
    ));
    assert("revoked"@ != "active"@);
}

} // verus!
