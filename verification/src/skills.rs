//! Skills: their records, and the directory name a skill id is stored under.
use vstd::prelude::*;
use crate::text::{chars_of, replace_all, replace_chars};
use crate::text_io::string_from_chars;

verus! {

/// A skill installed on this machine.
#[derive(Debug, Clone)]
pub struct Skill {
    pub id: String,
    pub name: String,
    pub description: String,
    pub version: String,
    pub author: String,
    pub icon: Option<String>,
    pub installed: bool,
    pub enabled: bool,
    pub installed_version: Option<String>,
    pub file_name: Option<String>,
}

/// A skill offered by the skills market.
#[derive(Debug, Clone)]
pub struct MarketSkill {
    pub id: String,
    pub name: String,
    pub description: String,
    pub version: String,
    pub author: String,
    pub icon: Option<String>,
    pub download_url: String,
}

/// The directory name for a skill id: every `'/'` becomes `"__"`.
pub open spec fn safe_skill_id_spec(id: Seq<char>) -> Seq<char> {
    replace_all(id, seq!['/'], seq!['_', '_'])
}

/// The directory name for a skill id: every `'/'` becomes `"__"`.
pub fn safe_skill_id(skill_id: &str) -> (r: String)
    ensures
        r@ == safe_skill_id_spec(skill_id@),
{
    let s = chars_of(skill_id);
    let from = vec!['/'];
    let to = vec!['_', '_'];
    assert(from@ =~= seq!['/']);
    assert(to@ =~= seq!['_', '_']);
    let r = replace_chars(s.as_slice(), from.as_slice(), to.as_slice());
    string_from_chars(r.as_slice())
}

/// The directory skills are listed from: the assistant's own skill
/// directory when it is known and exists, else the local one.
pub fn skills_dir_choice(openclaw_dir: Option<String>, openclaw_dir_exists: bool, local_dir: String) -> (d:
    String)
    ensures
        d@ == if openclaw_dir is Some && openclaw_dir_exists {
            openclaw_dir->0@
        } else {
            local_dir@
        },
{
    match openclaw_dir {
        Some(dir) => if openclaw_dir_exists {
            dir
        } else {
            local_dir
        },
        None => local_dir,
    }
}

impl Skill {
    /// The record written for a skill installed from the market: enabled,
    /// authored by the market, at `version`, stored in `file_name`.
    pub fn installed_from_market(
        skill_id: &str,
        skill_name: &str,
        skill_description: &str,
        skill_version: &str,
        skill_file_name: &str,
    ) -> (s: Skill)
        ensures
            s.id@ == skill_id@,
            s.name@ == skill_name@,
            s.description@ == skill_description@,
            s.version@ == skill_version@,
            s.author@ == "Skills Market"@,
            s.icon is None,
            s.installed,
            s.enabled,
            s.installed_version matches Some(v) && v@ == skill_version@,
            s.file_name matches Some(f) && f@ == skill_file_name@,
    {
        Skill {
            id: String::from_str(skill_id),
            name: String::from_str(skill_name),
            description: String::from_str(skill_description),
            version: String::from_str(skill_version),
            author: String::from_str("Skills Market"),
            icon: None,
            installed: true,
            enabled: true,
            installed_version: Some(String::from_str(skill_version)),
            file_name: Some(String::from_str(skill_file_name)),
        }
    }
}

/// Skill ids without `'/'` are their own directory names.
pub proof fn law_plain_id_unchanged(id: Seq<char>)
    requires
        forall|i: int| 0 <= i < id.len() ==> id[i] != '/',
    ensures
        safe_skill_id_spec(id) == id,
    decreases id.len(),
{
    if id.len() > 0 {
        assert(id.subrange(0, 1) != seq!['/']) by {
            assert(id.subrange(0, 1)[0] == id[0]);
        }
        assert forall|i: int| 0 <= i < id.drop_first().len() implies id.drop_first()[i] != '/' by {
            assert(id.drop_first()[i] == id[i + 1]);
        }
        law_plain_id_unchanged(id.drop_first());
        assert(id =~= seq![id[0]] + id.drop_first());
    }
}

} // verus!
