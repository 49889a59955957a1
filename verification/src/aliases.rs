//! The alias table: a plain name-to-replacement-text map with no access
//! control, seeded with the default aliases of the shell.

use vstd::prelude::*;
use vstd::hash_map::StringHashMap;
use vstd::string::StringExecFns;

verus! {

/// Alias bindings, modelled as a map from alias name to replacement text.
pub struct Aliases {
    aliases: StringHashMap<String>,
}

impl View for Aliases {
    type V = Map<Seq<char>, Seq<char>>;

    closed spec fn view(&self) -> Map<Seq<char>, Seq<char>> {
        self.aliases@.map_values(|v: String| v@)
    }
}

/// The table that `init_aliases` seeds, as a map.
pub open spec fn default_aliases() -> Map<Seq<char>, Seq<char>> {
    Map::<Seq<char>, Seq<char>>::empty()
        .insert("egrep"@, "egrep --color=auto"@)
        .insert("fgrep"@, "fgrep --color=auto"@)
        .insert("grep"@, "grep --color=auto"@)
        .insert("l."@, "ls -d .* --color=auto"@)
        .insert("ll"@, "ls -l --color=auto"@)
        .insert("ls"@, "ls --color=auto"@)
        .insert("which"@, "alias | /usr/bin/which --tty-only --read-alias --show-dot --show-tilde"@)
        .insert("xzegrep"@, "xzegrep --color=auto"@)
        .insert("xzfgrep"@, "xzfgrep --color=auto"@)
        .insert("xzgrep"@, "xzgrep --color=auto"@)
        .insert("zegrep"@, "zegrep --color=auto"@)
        .insert("zfgrep"@, "zfgrep --color=auto"@)
        .insert("zgrep"@, "zgrep --color=auto"@)
}

impl Aliases {
    /// An empty alias table.
    pub fn new() -> (al: Aliases)
        ensures
            al@ == Map::<Seq<char>, Seq<char>>::empty(),
    {
        let al = Aliases { aliases: StringHashMap::new() };
        proof {
            assert(al@ =~= Map::<Seq<char>, Seq<char>>::empty());
        }
        al
    }

    /// Look an alias up by name; the replacement text comes back as a copy.
    pub fn get(&self, key: &str) -> (r: Option<String>)
        ensures
            match r {
                Some(v) => self@.contains_key(key@) && v@ == self@[key@],
                None => !self@.contains_key(key@),
            },
    {
        match self.aliases.get(key) {
            Some(v) => Some(v.clone()),
            None => None,
        }
    }

    /// Bind an alias name to its replacement text, inserting or overwriting
    /// unconditionally.
    pub fn set(&mut self, key: String, value: String)
        ensures
            final(self)@ == old(self)@.insert(key@, value@),
    {
        self.aliases.insert(key, value);
        proof {
            assert(self@ =~= old(self)@.insert(key@, value@));
        }
    }

    /// The default alias table of the shell.
    pub fn init_aliases() -> (al: Aliases)
        ensures
            al@ == default_aliases(),
    {
        let mut al = Aliases::new();
        al.set(String::from_str("egrep"), String::from_str("egrep --color=auto"));
        al.set(String::from_str("fgrep"), String::from_str("fgrep --color=auto"));
        al.set(String::from_str("grep"), String::from_str("grep --color=auto"));
        al.set(String::from_str("l."), String::from_str("ls -d .* --color=auto"));
        al.set(String::from_str("ll"), String::from_str("ls -l --color=auto"));
        al.set(String::from_str("ls"), String::from_str("ls --color=auto"));
        al.set(
            String::from_str("which"),
            String::from_str(
                "alias | /usr/bin/which --tty-only --read-alias --show-dot --show-tilde",
            ),
        );
        al.set(String::from_str("xzegrep"), String::from_str("xzegrep --color=auto"));
        al.set(String::from_str("xzfgrep"), String::from_str("xzfgrep --color=auto"));
        al.set(String::from_str("xzgrep"), String::from_str("xzgrep --color=auto"));
        al.set(String::from_str("zegrep"), String::from_str("zegrep --color=auto"));
        al.set(String::from_str("zfgrep"), String::from_str("zfgrep --color=auto"));
        al.set(String::from_str("zgrep"), String::from_str("zgrep --color=auto"));
        al
    }
}

} // verus!
