use vstd::prelude::*;

verus! {

/// An application configuration profile's contents.
pub struct MyConfig {
    pub id: u16,
    pub name: String,
    pub rank: u16,
}

pub struct ConfigView {
    pub id: u16,
    pub name: Seq<char>,
    pub rank: u16,
}

impl View for MyConfig {
    type V = ConfigView;

    open spec fn view(&self) -> ConfigView {
        ConfigView { id: self.id, name: self.name@, rank: self.rank }
    }
}

/// The map a list of entries stands for: a later entry for a profile
/// overrides an earlier one.
pub open spec fn entries_map(s: Seq<(String, MyConfig)>) -> Map<Seq<char>, ConfigView>
    decreases s.len(),
{
    if s.len() == 0 {
        Map::empty()
    } else {
        entries_map(s.drop_last()).insert(s.last().0@, s.last().1@)
    }
}

/// Configurations fetched so far, by profile name. It is made once when the
/// process starts and handed to each invocation.
pub struct ConfigCache {
    entries: Vec<(String, MyConfig)>,
}

impl View for ConfigCache {
    type V = Map<Seq<char>, ConfigView>;

    closed spec fn view(&self) -> Map<Seq<char>, ConfigView> {
        entries_map(self.entries@)
    }
}

proof fn lemma_entries_last(s: Seq<(String, MyConfig)>, k: Seq<char>, j: int)
    requires
        -1 <= j < s.len(),
        j >= 0 ==> s[j].0@ == k,
        forall|i: int| j < i < s.len() ==> s[i].0@ != k,
    ensures
        j >= 0 ==> entries_map(s).contains_key(k) && entries_map(s)[k] == s[j].1@,
        j < 0 ==> !entries_map(s).contains_key(k),
    decreases s.len(),
{
    if s.len() > 0 {
        let pre = s.drop_last();
        if j < s.len() - 1 {
            assert forall|i: int| j < i < pre.len() implies pre[i].0@ != k by {
                assert(pre[i] == s[i]);
            }
            if j >= 0 {
                assert(pre[j] == s[j]);
            }
            lemma_entries_last(pre, k, j);
            assert(s[s.len() - 1] == s.last());
        }
    }
}

impl ConfigCache {
    pub fn new() -> (r: ConfigCache)
        ensures
            r@ == Map::<Seq<char>, ConfigView>::empty(),
    {
        ConfigCache { entries: Vec::new() }
    }

    /// The configuration cached for `profile`, if any.
    pub fn get(&self, profile: &str) -> (r: Option<&MyConfig>)
        ensures
            self@.contains_key(profile@) <==> r is Some,
            r matches Some(c) ==> c@ == self@[profile@],
    {
        let key = String::from_str(profile);
        let mut i: usize = self.entries.len();
        while i > 0
            invariant
                i <= self.entries@.len(),
                key@ == profile@,
                forall|m: int| i <= m < self.entries@.len() ==> self.entries@[m].0@ != profile@,
            decreases i,
        {
            i = i - 1;
            if self.entries[i].0 == key {
                proof {
                    lemma_entries_last(self.entries@, profile@, i as int);
                }
                return Some(&self.entries[i].1);
            }
        }
        proof {
            lemma_entries_last(self.entries@, profile@, -1);
        }
        None
    }

    pub fn contains(&self, profile: &str) -> (r: bool)
        ensures
            r == self@.contains_key(profile@),
    {
        self.get(profile).is_some()
    }

    /// Caches `config` for `profile`, replacing what was cached for it.
    pub fn insert(&mut self, profile: String, config: MyConfig)
        ensures
            final(self)@ == old(self)@.insert(profile@, config@),
    {
        let ghost s = self.entries@;
        let ghost e = (profile, config);
        self.entries.push((profile, config));
        assert(self.entries@.drop_last() =~= s);
    }
}

pub open spec fn config_url_text(
    port: Seq<char>,
    name: Seq<char>,
    env: Seq<char>,
    profile: Seq<char>,
) -> Seq<char> {
    "http://localhost:"@ + port + "/applications/"@ + name + "/environments/"@ + env
        + "/configurations/"@ + profile
}

/// Where the local configuration agent serves a profile.
pub fn config_url(port: &str, name: &str, env: &str, profile: &str) -> (r: String)
    ensures
        r@ == config_url_text(port@, name@, env@, profile@),
{
    let mut url = String::from_str("http://localhost:");
    url.append(port);
    url.append("/applications/");
    url.append(name);
    url.append("/environments/");
    url.append(env);
    url.append("/configurations/");
    url.append(profile);
    url
}

} // verus!
