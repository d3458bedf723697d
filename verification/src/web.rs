//! What the web handlers answer with: redirects, one-shot flash messages,
//! and the jar of private cookies that a browser session carries.

use vstd::prelude::*;

verus! {

/// A redirect to a path of the site.
#[derive(Clone, Debug, PartialEq, Eq)]
pub struct Redirect {
    pub to: String,
}

/// The kind of a flash message.
#[derive(Clone, Debug, PartialEq, Eq)]
pub enum FlashKind {
    Success,
    Warning,
    Error,
}

/// A message shown once, on the next page.
#[derive(Clone, Debug, PartialEq, Eq)]
pub struct Flash {
    pub kind: FlashKind,
    pub message: String,
}

/// A redirect that carries a flash message.
#[derive(Clone, Debug, PartialEq, Eq)]
pub struct FlashRedirect {
    pub flash: Flash,
    pub to: String,
}

/// A flash message as the next page receives it: its kind and its text.
#[derive(Clone, Debug, PartialEq, Eq)]
pub struct FlashMessage {
    pub kind: String,
    pub message: String,
}

/// A redirect to `to`.
pub fn redirect(to: &str) -> (r: Redirect)
    ensures
        r.to@ == to@,
{
    Redirect { to: to.to_string() }
}

/// A redirect to `to` with a flash message of kind `kind`.
pub fn flash_redirect(kind: FlashKind, to: &str, message: &str) -> (r: FlashRedirect)
    ensures
        r.to@ == to@,
        r.flash.kind == kind,
        r.flash.message@ == message@,
{
    FlashRedirect { flash: Flash { kind, message: message.to_string() }, to: to.to_string() }
}

/// The text and kind of the flash message that a page received, or two empty
/// texts when there is none.
pub fn flash_parts(flash: Option<FlashMessage>) -> (parts: (String, String))
    ensures
        flash matches Some(f) ==> parts == (f.message, f.kind),
        flash is None ==> parts.0@.len() == 0 && parts.1@.len() == 0,
{
    match flash {
        Some(f) => (f.message, f.kind),
        None => (String::new(), String::new()),
    }
}

/// How a browser is told to send a cookie back to other sites.
#[derive(Clone, Copy, Debug, PartialEq, Eq)]
pub enum SameSite {
    Strict,
    Lax,
    /// Sent with every request, as `SameSite=None` asks.
    Unrestricted,
}

/// The attributes that a handler sets on a cookie; an attribute left `None`
/// is the jar's default.
#[derive(Clone, Copy, Debug, PartialEq, Eq)]
pub struct CookieAttrs {
    pub http_only: Option<bool>,
    pub same_site: Option<SameSite>,
}

/// The attributes of a cookie that sets none of its own.
pub open spec fn default_attrs() -> CookieAttrs {
    CookieAttrs { http_only: None, same_site: None }
}

/// The cookies that a jar of entries holds, each with its value and its
/// attributes: a later entry for a name overrides an earlier one.
pub open spec fn entries_map(entries: Seq<(String, String, CookieAttrs)>) -> Map<
    Seq<char>,
    (Seq<char>, CookieAttrs),
>
    decreases entries.len(),
{
    if entries.len() == 0 {
        Map::empty()
    } else {
        entries_map(entries.drop_last()).insert(
            entries.last().0@,
            (entries.last().1@, entries.last().2),
        )
    }
}

/// The private cookies of a browser session, by name.
pub struct CookieJar {
    entries: Vec<(String, String, CookieAttrs)>,
}

impl View for CookieJar {
    type V = Map<Seq<char>, Seq<char>>;

    /// The value of each cookie.
    closed spec fn view(&self) -> Map<Seq<char>, Seq<char>> {
        entries_map(self.entries@).map_values(|c: (Seq<char>, CookieAttrs)| c.0)
    }
}

proof fn lemma_last_entry_wins(entries: Seq<(String, String, CookieAttrs)>, i: int, name: Seq<char>)
    requires
        0 <= i < entries.len(),
        entries[i].0@ == name,
        forall|j: int| i < j < entries.len() ==> (#[trigger] entries[j]).0@ != name,
    ensures
        entries_map(entries).contains_key(name),
        entries_map(entries)[name] == (entries[i].1@, entries[i].2),
    decreases entries.len(),
{
    if i < entries.len() - 1 {
        let shorter = entries.drop_last();
        assert forall|j: int| i < j < shorter.len() implies (#[trigger] shorter[j]).0@ != name by {
            assert(shorter[j] == entries[j]);
        }
        lemma_last_entry_wins(shorter, i, name);
        assert(entries[entries.len() - 1].0@ != name);
    }
}

proof fn lemma_absent_entry(entries: Seq<(String, String, CookieAttrs)>, name: Seq<char>)
    requires
        forall|j: int| 0 <= j < entries.len() ==> (#[trigger] entries[j]).0@ != name,
    ensures
        !entries_map(entries).contains_key(name),
    decreases entries.len(),
{
    if entries.len() > 0 {
        let shorter = entries.drop_last();
        assert forall|j: int| 0 <= j < shorter.len() implies (#[trigger] shorter[j]).0@ != name by {
            assert(shorter[j] == entries[j]);
        }
        lemma_absent_entry(shorter, name);
        assert(entries[entries.len() - 1].0@ != name);
    }
}

impl CookieJar {
    /// The attributes of each cookie.
    pub closed spec fn attributes(&self) -> Map<Seq<char>, CookieAttrs> {
        entries_map(self.entries@).map_values(|c: (Seq<char>, CookieAttrs)| c.1)
    }

    /// An empty jar.
    pub fn new() -> (jar: CookieJar)
        ensures
            jar@ == Map::<Seq<char>, Seq<char>>::empty(),
            jar.attributes() == Map::<Seq<char>, CookieAttrs>::empty(),
    {
        let jar = CookieJar { entries: Vec::new() };
        assert(jar@ =~= Map::<Seq<char>, Seq<char>>::empty());
        assert(jar.attributes() =~= Map::<Seq<char>, CookieAttrs>::empty());
        jar
    }

    /// Sets the cookie `name` to `value` with the attributes `attrs`,
    /// replacing any earlier cookie of that name.
    pub fn add_private_with(&mut self, name: &str, value: String, attrs: CookieAttrs)
        ensures
            final(self)@ == old(self)@.insert(name@, value@),
            final(self).attributes() == old(self).attributes().insert(name@, attrs),
    {
        let ghost before = self.entries@;
        self.entries.push((name.to_string(), value, attrs));
        assert(self.entries@.drop_last() =~= before);
        assert(self@ =~= old(self)@.insert(name@, value@));
        assert(self.attributes() =~= old(self).attributes().insert(name@, attrs));
    }

    /// Sets the cookie `name` to `value` with the jar's default attributes,
    /// replacing any earlier cookie of that name.
    pub fn add_private(&mut self, name: &str, value: String)
        ensures
            final(self)@ == old(self)@.insert(name@, value@),
            final(self).attributes() == old(self).attributes().insert(name@, default_attrs()),
    {
        self.add_private_with(name, value, CookieAttrs { http_only: None, same_site: None });
    }

    /// The value and the attributes of the cookie `name`, if the jar holds one.
    pub fn get_private_cookie(&self, name: &str) -> (cookie: Option<(String, CookieAttrs)>)
        ensures
            cookie is Some <==> self@.contains_key(name@),
            cookie matches Some(c) ==> c.0@ == self@[name@] && c.1 == self.attributes()[name@],
    {
        let key = name.to_string();
        let mut i = self.entries.len();
        while i > 0
            invariant
                i <= self.entries@.len(),
                key@ == name@,
                forall|j: int| i <= j < self.entries@.len() ==> (#[trigger] self.entries@[j]).0@
                    != name@,
            decreases i,
        {
            i = i - 1;
            if self.entries[i].0 == key {
                proof {
                    lemma_last_entry_wins(self.entries@, i as int, name@);
                }
                return Some((self.entries[i].1.clone(), self.entries[i].2));
            }
        }
        proof {
            lemma_absent_entry(self.entries@, name@);
        }
        None
    }

    /// The value of the cookie `name`, if the jar holds one.
    pub fn get_private(&self, name: &str) -> (value: Option<String>)
        ensures
            value is Some <==> self@.contains_key(name@),
            value matches Some(v) ==> v@ == self@[name@],
    {
        match self.get_private_cookie(name) {
            Some(c) => Some(c.0),
            None => None,
        }
    }

    /// Removes the cookie `name`, if the jar holds one.
    pub fn remove_private(&mut self, name: &str)
        ensures
            final(self)@ == old(self)@.remove(name@),
            final(self).attributes() == old(self).attributes().remove(name@),
    {
        let key = name.to_string();
        let ghost all = self.entries@;
        let mut kept: Vec<(String, String, CookieAttrs)> = Vec::new();
        let mut i: usize = 0;
        while i < self.entries.len()
            invariant
                i <= self.entries@.len(),
                self.entries@ == all,
                key@ == name@,
                entries_map(kept@) == entries_map(all.subrange(0, i as int)).remove(name@),
            decreases self.entries@.len() - i,
        {
            let ghost before = kept@;
            let ghost prefix = all.subrange(0, i as int);
            let ghost next = all.subrange(0, i + 1);
            assert(next.drop_last() =~= prefix);
            if self.entries[i].0 != key {
                let entry = (self.entries[i].0.clone(), self.entries[i].1.clone(), self.entries[i].2);
                kept.push(entry);
                assert(kept@.drop_last() =~= before);
                assert(entries_map(kept@) =~= entries_map(next).remove(name@));
            } else {
                assert(entries_map(before) =~= entries_map(next).remove(name@));
            }
            i = i + 1;
        }
        assert(all.subrange(0, i as int) =~= all);
        self.entries = kept;
        assert(self@ =~= old(self)@.remove(name@));
        assert(self.attributes() =~= old(self).attributes().remove(name@));
    }
}

} // verus!
