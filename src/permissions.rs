//! Which tools may run without asking the user, for one session.
use vstd::prelude::*;

use crate::text::copy_string;

verus! {

#[derive(Debug, Clone)]
pub struct ToolPermission {
    pub name: String,
    pub trusted: bool,
}

/// The setting for `name`: the last entry that names it decides.
pub open spec fn setting_in(s: Seq<ToolPermission>, name: Seq<char>) -> Option<bool>
    decreases s.len(),
{
    if s.len() == 0 {
        None
    } else if s.last().name@ == name {
        Some(s.last().trusted)
    } else {
        setting_in(s.drop_last(), name)
    }
}

/// `trust_all` lets every tool run; otherwise a tool runs unasked when it
/// was marked trusted.
#[derive(Debug)]
pub struct ToolPermissions {
    pub trust_all: bool,
    pub permissions: Vec<ToolPermission>,
}

impl ToolPermissions {
    pub open spec fn setting(&self, name: Seq<char>) -> Option<bool> {
        setting_in(self.permissions@, name)
    }

    pub open spec fn trusted_spec(&self, name: Seq<char>) -> bool {
        self.trust_all || self.setting(name) == Some(true)
    }

    pub fn new(capacity: usize) -> (r: Self)
        ensures
            !r.trust_all,
            forall|n: Seq<char>| r.setting(n) is None,
    {
        ToolPermissions { trust_all: false, permissions: Vec::with_capacity(capacity) }
    }

    /// Whether `name` may run without asking.
    pub fn is_trusted(&self, name: &str) -> (r: bool)
        ensures
            r == self.trusted_spec(name@),
    {
        self.trust_all || match self.lookup(name) {
            Some(t) => t,
            None => false,
        }
    }

    /// Whether `name` has a setting of its own.
    pub fn has(&self, name: &str) -> (r: bool)
        ensures
            r == self.setting(name@) is Some,
    {
        self.lookup(name).is_some()
    }

    fn lookup(&self, name: &str) -> (r: Option<bool>)
        ensures
            r == self.setting(name@),
    {
        let mut i: usize = self.permissions.len();
        assert(self.permissions@.take(i as int) =~= self.permissions@);
        while i > 0
            invariant
                i <= self.permissions@.len(),
                setting_in(self.permissions@, name@) == setting_in(
                    self.permissions@.take(i as int),
                    name@,
                ),
            decreases i,
        {
            let p = &self.permissions[i - 1];
            assert(self.permissions@.take(i as int).drop_last() =~= self.permissions@.take(
                i - 1,
            ));
            if p.name.as_str().to_owned() == name.to_owned() {
                return Some(p.trusted);
            }
            i = i - 1;
        }
        None
    }

    /// Drops the setting of `name`, leaving every other one.
    fn remove_setting(&mut self, name: &str)
        ensures
            final(self).trust_all == old(self).trust_all,
            final(self).setting(name@) is None,
            forall|n: Seq<char>| n != name@ ==> final(self).setting(n) == old(self).setting(n),
    {
        let mut kept: Vec<ToolPermission> = Vec::new();
        let mut i: usize = 0;
        while i < self.permissions.len()
            invariant
                i <= self.permissions@.len(),
                setting_in(kept@, name@) is None,
                forall|n: Seq<char>|
                    n != name@ ==> setting_in(kept@, n) == setting_in(
                        self.permissions@.take(i as int),
                        n,
                    ),
            decreases self.permissions.len() - i,
        {
            let p = &self.permissions[i];
            let ghost before = kept@;
            let same = p.name.as_str().to_owned() == name.to_owned();
            if !same {
                kept.push(ToolPermission { name: copy_string(&p.name), trusted: p.trusted });
                assert(kept@.drop_last() =~= before);
            }
            let ghost t = self.permissions@.take(i + 1);
            assert(t.drop_last() =~= self.permissions@.take(i as int));
            assert(t.last() == self.permissions@[i as int]);
            assert forall|n: Seq<char>| n != name@ implies setting_in(kept@, n) == setting_in(t, n) by {
                assert(setting_in(before, n) == setting_in(self.permissions@.take(i as int), n));
                if !same {
                    assert(kept@.last().name@ == t.last().name@);
                    assert(kept@.last().trusted == t.last().trusted);
                    assert(setting_in(kept@, n) == if kept@.last().name@ == n {
                        Some(kept@.last().trusted)
                    } else {
                        setting_in(kept@.drop_last(), n)
                    });
                } else {
                    assert(kept@ == before);
                    assert(t.last().name@ == name@);
                }
                assert(setting_in(t, n) == if t.last().name@ == n {
                    Some(t.last().trusted)
                } else {
                    setting_in(t.drop_last(), n)
                });
            }
            i = i + 1;
        }
        assert(self.permissions@.take(self.permissions.len() as int) =~= self.permissions@);
        self.permissions = kept;
    }

    fn set(&mut self, name: &str, trusted: bool)
        ensures
            final(self).trust_all == old(self).trust_all,
            final(self).setting(name@) == Some(trusted),
            forall|n: Seq<char>| n != name@ ==> final(self).setting(n) == old(self).setting(n),
    {
        self.remove_setting(name);
        let ghost before = self.permissions@;
        self.permissions.push(ToolPermission { name: name.to_owned(), trusted });
        assert(self.permissions@.drop_last() =~= before);
    }

    /// Lets `name` run without asking from now on.
    pub fn trust_tool(&mut self, name: &str)
        ensures
            final(self).trust_all == old(self).trust_all,
            final(self).setting(name@) == Some(true),
            forall|n: Seq<char>| n != name@ ==> final(self).setting(n) == old(self).setting(n),
    {
        self.set(name, true)
    }

    /// Makes `name` ask again; trusting every tool ends.
    pub fn untrust_tool(&mut self, name: &str)
        ensures
            !final(self).trust_all,
            final(self).setting(name@) == Some(false),
            forall|n: Seq<char>| n != name@ ==> final(self).setting(n) == old(self).setting(n),
    {
        self.trust_all = false;
        self.set(name, false)
    }

    /// Brings `name` back to its default; trusting every tool ends.
    pub fn reset_tool(&mut self, name: &str)
        ensures
            !final(self).trust_all,
            final(self).setting(name@) is None,
            forall|n: Seq<char>| n != name@ ==> final(self).setting(n) == old(self).setting(n),
    {
        self.trust_all = false;
        self.remove_setting(name)
    }

    /// Brings every tool back to its default.
    pub fn reset(&mut self)
        ensures
            !final(self).trust_all,
            forall|n: Seq<char>| final(self).setting(n) is None,
    {
        self.trust_all = false;
        self.permissions.clear();
    }

    /// The permissions a session starts with: with `trust_all` every tool
    /// is trusted; with a list, the listed tools are trusted and the others
    /// ask; with neither, every tool keeps its default.
    pub fn from_args(
        tool_names: &Vec<String>,
        trust_all: bool,
        trust_tools: Option<Vec<String>>,
    ) -> (r: Self)
        ensures
            r.trust_all == trust_all,
            trust_all ==> forall|i: int|
                0 <= i < tool_names@.len() ==> r.setting(#[trigger] tool_names@[i]@) == Some(
                    true,
                ),
            !trust_all && trust_tools is None ==> forall|n: Seq<char>| r.setting(n) is None,
            !trust_all && trust_tools is Some ==> forall|i: int|
                0 <= i < tool_names@.len() ==> r.setting(#[trigger] tool_names@[i]@) == Some(
                    crate::text::views(trust_tools->Some_0@).contains(tool_names@[i]@),
                ),
    {
        let mut perms = ToolPermissions::new(tool_names.len());
        if trust_all {
            perms.trust_all = true;
        }
        if !trust_all && trust_tools.is_none() {
            return perms;
        }
        let ghost listed: Seq<Seq<char>> = match &trust_tools {
            Some(v) => crate::text::views(v@),
            None => Seq::empty(),
        };
        let mut i: usize = 0;
        while i < tool_names.len()
            invariant
                i <= tool_names@.len(),
                perms.trust_all == trust_all,
                trust_all || trust_tools is Some,
                trust_tools is Some ==> listed == crate::text::views(trust_tools->Some_0@),
                forall|k: int|
                    0 <= k < i ==> perms.setting(#[trigger] tool_names@[k]@) == if trust_all {
                        Some(true)
                    } else {
                        Some(listed.contains(tool_names@[k]@))
                    },
            decreases tool_names.len() - i,
        {
            let name = tool_names[i].as_str();
            let trusted = if trust_all {
                true
            } else {
                match &trust_tools {
                    Some(list) => contains_name(list, name),
                    None => false,
                }
            };
            let ghost before = perms;
            perms.set(name, trusted);
            proof {
                assert forall|k: int| 0 <= k < i + 1 implies perms.setting(
                    #[trigger] tool_names@[k]@,
                ) == if trust_all {
                    Some(true)
                } else {
                    Some(listed.contains(tool_names@[k]@))
                } by {
                    if k < i && tool_names@[k]@ != name@ {
                        assert(perms.setting(tool_names@[k]@) == before.setting(tool_names@[k]@));
                    }
                }
            }
            i = i + 1;
        }
        perms
    }
}

/// Whether `name` is among `list`.
pub fn contains_name(list: &Vec<String>, name: &str) -> (r: bool)
    ensures
        r == crate::text::views(list@).contains(name@),
{
    let mut i: usize = 0;
    while i < list.len()
        invariant
            i <= list@.len(),
            forall|j: int| 0 <= j < i ==> (#[trigger] list@[j])@ != name@,
        decreases list.len() - i,
    {
        if list[i].as_str().to_owned() == name.to_owned() {
            assert(crate::text::views(list@)[i as int] == name@);
            return true;
        }
        i = i + 1;
    }
    proof {
        if crate::text::views(list@).contains(name@) {
            let j = choose|j: int|
                0 <= j < crate::text::views(list@).len() && crate::text::views(list@)[j] == name@;
            assert(list@[j]@ == name@);
        }
    }
    false
}

/// Whether every tool named in `tool_names` may run without asking.
pub fn all_tools_trusted(perms: &ToolPermissions, tool_names: &Vec<String>) -> (r: bool)
    ensures
        r == forall|i: int| 0 <= i < tool_names@.len() ==> perms.trusted_spec(#[trigger] tool_names@[i]@),
{
    let mut i: usize = 0;
    while i < tool_names.len()
        invariant
            i <= tool_names@.len(),
            forall|j: int| 0 <= j < i ==> perms.trusted_spec(#[trigger] tool_names@[j]@),
        decreases tool_names.len() - i,
    {
        if !perms.is_trusted(tool_names[i].as_str()) {
            return false;
        }
        i = i + 1;
    }
    true
}

} // verus!
