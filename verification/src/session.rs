use vstd::prelude::*;

verus! {

/// Minimal session metadata, as the keyed record store persists it:
/// identifier, agent-type label, creation time and last-used time, the
/// times as seconds since the epoch.
#[derive(Debug)]
pub struct SessionMetadata {
    pub session_id: String,
    pub agent_type: String,
    pub created_at: u64,
    pub last_used: u64,
}

impl SessionMetadata {
    /// The same record with the last-used timestamp refreshed to `now`.
    pub fn touched(&self, now: u64) -> (r: SessionMetadata)
        ensures
            r.session_id == self.session_id,
            r.agent_type == self.agent_type,
            r.created_at == self.created_at,
            r.last_used == now,
    {
        SessionMetadata {
            session_id: self.session_id.clone(),
            agent_type: self.agent_type.clone(),
            created_at: self.created_at,
            last_used: now,
        }
    }
}

/// The record store for session metadata, addressed by a base directory;
/// the reading and writing of the records is the surrounding runtime's.
pub struct SessionStore {
    pub base_dir: String,
}

/// Relies on uuid::Uuid::new_v4 and its Display form: a fresh random
/// identifier rendered as the 36-character hyphenated text.
#[verifier::external_body]
fn fresh_session_id() -> (r: String)
    ensures
        r@.len() == 36,
{
    uuid::Uuid::new_v4().to_string()
}

impl SessionStore {
    pub fn new(base_dir: String) -> (r: SessionStore)
        ensures
            r.base_dir == base_dir,
    {
        SessionStore { base_dir }
    }

    /// The path of the file persisting one session's record: the base
    /// directory, a separator, the identifier and the `.json` suffix.
    pub fn session_path(&self, session_id: &str) -> (r: String)
        ensures
            r@ == self.base_dir@ + "/"@ + session_id@ + ".json"@,
    {
        self.base_dir.clone().concat("/").concat(session_id).concat(".json")
    }

    /// A fresh session record: a newly drawn identifier, the given label,
    /// and both timestamps set to `now`. The caller persists it.
    pub fn create_session(&self, agent_type: String, now: u64) -> (r: SessionMetadata)
        ensures
            r.session_id@.len() == 36,
            r.agent_type == agent_type,
            r.created_at == now,
            r.last_used == now,
    {
        SessionMetadata {
            session_id: fresh_session_id(),
            agent_type,
            created_at: now,
            last_used: now,
        }
    }
}

/// The session identifier denoted by a record file's name: the name with
/// its `.json` suffix cut off, or nothing for any other file.
pub fn session_id_of_filename(name: &str) -> (r: Option<String>)
    ensures
        match r {
            Some(sid) => name@.len() >= 5 && name@.subrange(
                name@.len() - 5,
                name@.len() as int,
            ) == ".json"@ && sid@ == name@.subrange(0, name@.len() - 5),
            None => name@.len() < 5 || name@.subrange(name@.len() - 5, name@.len() as int)
                != ".json"@,
        },
{
    let n = name.unicode_len();
    if n < 5 {
        return None;
    }
    let suffix = name.substring_char(n - 5, n);
    proof {
        reveal_strlit(".json");
    }
    let is_json = suffix.unicode_len() == 5 && suffix.get_char(0) == '.' && suffix.get_char(1)
        == 'j' && suffix.get_char(2) == 's' && suffix.get_char(3) == 'o' && suffix.get_char(4)
        == 'n';
    if is_json {
        proof {
            assert(suffix@ =~= ".json"@);
        }
        Some(String::from_str(name.substring_char(0, n - 5)))
    } else {
        proof {
            assert(suffix@ == name@.subrange(name@.len() - 5, name@.len() as int));
            if name@.subrange(name@.len() - 5, name@.len() as int) == ".json"@ {
                assert(suffix@[0] == '.' && suffix@[1] == 'j' && suffix@[2] == 's'
                    && suffix@[3] == 'o' && suffix@[4] == 'n');
            }
        }
        None
    }
}

} // verus!
