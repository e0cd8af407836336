//! Dry runs: each map writes what the API answered into named sections of a
//! container, and each container is written out as a JSON object.
use vstd::prelude::*;

verus! {

/// One section of a container: a key and the text gathered under it.
#[derive(Clone, Debug)]
pub struct Section {
    pub key: String,
    pub value: String,
}

/// A container of sections, named after the map that filled it.
#[derive(Clone, Debug)]
pub struct Container {
    pub name: String,
    pub sections: Vec<Section>,
}

/// A section as texts.
pub type SectionView = (Seq<char>, Seq<char>);

/// The sections of a container as texts.
pub open spec fn sections_view(s: Seq<Section>) -> Seq<SectionView> {
    s.map_values(|x: Section| (x.key@, x.value@))
}

/// The position of the first section under `key`, or -1.
pub open spec fn find_section(s: Seq<SectionView>, key: Seq<char>) -> int
    decreases s.len(),
{
    if s.len() == 0 {
        -1
    } else if s[0].0 == key {
        0
    } else {
        let r = find_section(s.drop_first(), key);
        if r < 0 { -1 } else { r + 1 }
    }
}

/// Sections after `value` is pushed under `key`: appended to the section's text when
/// there is one, else a new section at the end.
pub open spec fn push_section(s: Seq<SectionView>, key: Seq<char>, value: Seq<char>) -> Seq<SectionView> {
    let i = find_section(s, key);
    if i < 0 {
        s.push((key, value))
    } else {
        s.update(i, (key, s[i].1 + value))
    }
}

/// No two sections share a key.
pub open spec fn keys_distinct(s: Seq<SectionView>) -> bool {
    forall|i: int, j: int| 0 <= i < j < s.len() ==> s[i].0 != s[j].0
}

/// Pushing a value keeps the keys of the sections distinct.
proof fn lemma_push_section_keeps_keys_distinct(s: Seq<SectionView>, key: Seq<char>, value: Seq<char>)
    requires
        keys_distinct(s),
    ensures
        keys_distinct(push_section(s, key, value)),
{
    lemma_find_section(s, key);
    let t = push_section(s, key, value);
    assert forall|i: int, j: int| 0 <= i < j < t.len() implies t[i].0 != t[j].0 by {
        if find_section(s, key) < 0 && j == s.len() {
            assert(t[i] == s[i]);
        }
    }
}

/// The value is written as it is when it already reads as JSON (it starts with `{`,
/// `[` or `"`), else as a JSON string.
pub open spec fn is_json_text(v: Seq<char>) -> bool {
    v.len() > 0 && (v[0] == '{' || v[0] == '[' || v[0] == '"')
}

/// One section as a JSON member.
pub open spec fn section_text(k: Seq<char>, v: Seq<char>) -> Seq<char> {
    if is_json_text(v) {
        "\""@ + k + "\": "@ + v
    } else {
        "\""@ + k + "\": \""@ + v + "\""@
    }
}

/// The sections as JSON members separated by commas.
pub open spec fn sections_text(s: Seq<SectionView>) -> Seq<char>
    decreases s.len(),
{
    if s.len() == 0 {
        Seq::empty()
    } else if s.len() == 1 {
        section_text(s[0].0, s[0].1)
    } else {
        sections_text(s.drop_last()) + ","@ + section_text(s.last().0, s.last().1)
    }
}

/// A container as a JSON member: its name and an object of its sections (empty when
/// nothing was pushed to it), then a comma unless it is the last one.
pub open spec fn container_text(name: Seq<char>, sections: Option<Seq<SectionView>>, is_last: bool) -> Seq<char> {
    (match sections {
        Some(s) => "\""@ + name + "\": {"@ + sections_text(s) + "}"@,
        None => "\""@ + name + "\": {}"@,
    }) + (if is_last { Seq::empty() } else { ","@ })
}

/// The containers a dry run has filled and not yet written out.
pub struct DryRunOutput {
    pub containers: Vec<Container>,
}

/// The position of the first container named `name`, or -1.
pub open spec fn find_container(c: Seq<Container>, name: Seq<char>) -> int
    decreases c.len(),
{
    if c.len() == 0 {
        -1
    } else if c[0].name@ == name {
        0
    } else {
        let r = find_container(c.drop_first(), name);
        if r < 0 { -1 } else { r + 1 }
    }
}

proof fn lemma_find_container(c: Seq<Container>, name: Seq<char>)
    ensures
        -1 <= find_container(c, name) < c.len(),
        find_container(c, name) >= 0 ==> c[find_container(c, name)].name@ == name,
        forall|j: int| 0 <= j < c.len() && (find_container(c, name) < 0 || j < find_container(c, name)) ==> (#[trigger] c[j]).name@ != name,
    decreases c.len(),
{
    if c.len() > 0 && c[0].name@ != name {
        lemma_find_container(c.drop_first(), name);
        assert forall|j: int| 0 <= j < c.len() && (find_container(c, name) < 0 || j < find_container(c, name)) implies (#[trigger] c[j]).name@ != name by {
            if j > 0 {
                assert(c[j] == c.drop_first()[j - 1]);
            }
        }
    }
}

proof fn lemma_find_section(s: Seq<SectionView>, key: Seq<char>)
    ensures
        -1 <= find_section(s, key) < s.len(),
        find_section(s, key) >= 0 ==> s[find_section(s, key)].0 == key,
        forall|j: int| 0 <= j < s.len() && (find_section(s, key) < 0 || j < find_section(s, key)) ==> (#[trigger] s[j]).0 != key,
    decreases s.len(),
{
    if s.len() > 0 && s[0].0 != key {
        lemma_find_section(s.drop_first(), key);
        assert forall|j: int| 0 <= j < s.len() && (find_section(s, key) < 0 || j < find_section(s, key)) implies (#[trigger] s[j]).0 != key by {
            if j > 0 {
                assert(s[j] == s.drop_first()[j - 1]);
            }
        }
    }
}

/// The first position whose name is `name`, if any.
fn container_index(c: &Vec<Container>, name: &str) -> (r: Option<usize>)
    ensures
        r is None ==> find_container(c@, name@) < 0,
        r matches Some(i) ==> i == find_container(c@, name@),
{
    proof { lemma_find_container(c@, name@); }
    let mut i: usize = 0;
    while i < c.len()
        invariant
            i <= c.len(),
            forall|j: int| 0 <= j < i ==> (#[trigger] c@[j]).name@ != name@,
            -1 <= find_container(c@, name@) < c.len(),
            find_container(c@, name@) >= 0 ==> c@[find_container(c@, name@)].name@ == name@,
            forall|j: int| 0 <= j < c.len() && (find_container(c@, name@) < 0 || j < find_container(c@, name@)) ==> (#[trigger] c@[j]).name@ != name@,
        decreases c.len() - i,
    {
        if crate::text::str_eq(c[i].name.as_str(), name) {
            return Some(i);
        }
        i = i + 1;
    }
    None
}

/// The first position whose key is `key`, if any.
fn section_index(s: &Vec<Section>, key: &str) -> (r: Option<usize>)
    ensures
        r is None ==> find_section(sections_view(s@), key@) < 0,
        r matches Some(i) ==> i == find_section(sections_view(s@), key@),
{
    let ghost v = sections_view(s@);
    proof { lemma_find_section(v, key@); }
    let mut i: usize = 0;
    while i < s.len()
        invariant
            i <= s.len(),
            v == sections_view(s@),
            forall|j: int| 0 <= j < i ==> (#[trigger] v[j]).0 != key@,
            -1 <= find_section(v, key@) < s.len(),
            find_section(v, key@) >= 0 ==> v[find_section(v, key@)].0 == key@,
            forall|j: int| 0 <= j < s.len() && (find_section(v, key@) < 0 || j < find_section(v, key@)) ==> (#[trigger] v[j]).0 != key@,
        decreases s.len() - i,
    {
        assert(v[i as int] == (s@[i as int].key@, s@[i as int].value@));
        if crate::text::str_eq(s[i].key.as_str(), key) {
            return Some(i);
        }
        i = i + 1;
    }
    None
}

impl DryRunOutput {
    /// No two containers share a name, and no two sections of a container share a key.
    pub open spec fn well_formed(&self) -> bool {
        &&& forall|i: int, j: int| 0 <= i < j < self.containers@.len() ==> self.containers@[i].name@ != self.containers@[j].name@
        &&& forall|i: int| 0 <= i < self.containers@.len() ==> keys_distinct(sections_view(#[trigger] self.containers@[i].sections@))
    }

    /// No container yet.
    pub fn new() -> (o: Self)
        ensures
            o.well_formed(),
            o.containers@.len() == 0,
    {
        DryRunOutput { containers: Vec::new() }
    }

    /// What is written before the first container.
    pub fn initialize(&self) -> (t: String)
        ensures
            t@ == "{"@,
    {
        String::from_str("{")
    }

    /// What is written after the last container.
    pub fn finalize(&self) -> (t: String)
        ensures
            t@ == "}"@,
    {
        String::from_str("}")
    }

    /// Adds `value` under `section` of `container`: appended to the section's text when
    /// there is one, else a new section (and a new container when needed).
    pub fn push(&mut self, container: &str, section: &str, value: &str)
        requires
            old(self).well_formed(),
        ensures
            final(self).well_formed(),
            ({
                let i = find_container(old(self).containers@, container@);
                if i < 0 {
                    &&& final(self).containers@.len() == old(self).containers@.len() + 1
                    &&& forall|j: int| 0 <= j < old(self).containers@.len() ==> final(self).containers@[j] == old(self).containers@[j]
                    &&& final(self).containers@.last().name@ == container@
                    &&& sections_view(final(self).containers@.last().sections@) == seq![(section@, value@)]
                } else {
                    &&& final(self).containers@.len() == old(self).containers@.len()
                    &&& forall|j: int| 0 <= j < old(self).containers@.len() && j != i ==> final(self).containers@[j] == old(self).containers@[j]
                    &&& final(self).containers@[i].name == old(self).containers@[i].name
                    &&& sections_view(final(self).containers@[i].sections@)
                        == push_section(sections_view(old(self).containers@[i].sections@), section@, value@)
                }
            }),
    {
        proof { lemma_find_container(self.containers@, container@); }
        match container_index(&self.containers, container) {
            None => {
                let mut sections: Vec<Section> = Vec::new();
                sections.push(Section { key: String::from_str(section), value: String::from_str(value) });
                assert(sections_view(sections@) =~= seq![(section@, value@)]);
                self.containers.push(Container { name: String::from_str(container), sections });
            },
            Some(i) => {
                let mut c = self.containers.remove(i);
                let ghost old_sections = sections_view(c.sections@);
                proof { lemma_find_section(old_sections, section@); }
                match section_index(&c.sections, section) {
                    None => {
                        c.sections.push(Section { key: String::from_str(section), value: String::from_str(value) });
                        assert(sections_view(c.sections@) =~= push_section(old_sections, section@, value@));
                    },
                    Some(k) => {
                        let mut s = c.sections.remove(k);
                        s.value.append(value);
                        c.sections.insert(k, s);
                        assert(sections_view(c.sections@) =~= push_section(old_sections, section@, value@));
                    },
                }
                self.containers.insert(i, c);
                proof {
                    lemma_push_section_keeps_keys_distinct(old_sections, section@, value@);
                    assert forall|j: int| 0 <= j < self.containers@.len() && j != i implies self.containers@[j] == old(self).containers@[j] by {}
                }
            },
        }
    }

    /// The text of `container` as a JSON member (followed by a comma unless it is the
    /// last), and the container dropped.
    pub fn flush(&mut self, container: &str, is_last: bool) -> (t: String)
        requires
            old(self).well_formed(),
        ensures
            final(self).well_formed(),
            ({
                let i = find_container(old(self).containers@, container@);
                &&& i < 0 ==> t@ == container_text(container@, None, is_last) && final(self).containers@ == old(self).containers@
                &&& i >= 0 ==> t@ == container_text(container@, Some(sections_view(old(self).containers@[i].sections@)), is_last)
                    && final(self).containers@ == old(self).containers@.remove(i)
            }),
    {
        proof { lemma_find_container(self.containers@, container@); }
        let mut t = String::from_str("\"");
        t.append(container);
        match container_index(&self.containers, container) {
            None => {
                t.append("\": {}");
            },
            Some(i) => {
                let c = self.containers.remove(i);
                t.append("\": {");
                let body = render_sections(&c.sections);
                t.append(body.as_str());
                t.append("}");
            },
        }
        if !is_last {
            t.append(",");
        }
        t
    }
}

/// A value reads as JSON already.
fn starts_as_json(v: &str) -> (b: bool)
    ensures
        b == is_json_text(v@),
{
    let cs = crate::text::chars_of(v);
    if cs.len() == 0 {
        false
    } else {
        let c = cs[0];
        c == '{' || c == '[' || c == '"'
    }
}

/// The sections as JSON members separated by commas.
fn render_sections(s: &Vec<Section>) -> (t: String)
    ensures
        t@ == sections_text(sections_view(s@)),
{
    let ghost v = sections_view(s@);
    let mut t = String::new();
    let mut i: usize = 0;
    while i < s.len()
        invariant
            i <= s.len(),
            v == sections_view(s@),
            t@ == sections_text(v.take(i as int)),
        decreases s.len() - i,
    {
        assert(v.take(i as int + 1).drop_last() =~= v.take(i as int));
        assert(v.take(i as int + 1).last() == (s@[i as int].key@, s@[i as int].value@));
        if i > 0 {
            t.append(",");
        }
        t.append("\"");
        t.append(s[i].key.as_str());
        if starts_as_json(s[i].value.as_str()) {
            t.append("\": ");
            t.append(s[i].value.as_str());
        } else {
            t.append("\": \"");
            t.append(s[i].value.as_str());
            t.append("\"");
        }
        i = i + 1;
    }
    assert(v.take(s.len() as int) =~= v);
    t
}

/// Runs the dry run of each map and writes the document to `output_path`.
pub struct DryRunner<R> {
    pub runnables: Vec<R>,
    pub output_path: String,
}

impl<R> DryRunner<R> {
    pub fn new(runnables: Vec<R>, output_path: String) -> (r: Self)
        ensures
            r.runnables == runnables,
            r.output_path == output_path,
    {
        Self { runnables, output_path }
    }
}


/// Two values pushed under the same key end up as one section holding both, in order.
pub proof fn lemma_push_section_twice(s: Seq<SectionView>, key: Seq<char>, a: Seq<char>, b: Seq<char>)
    ensures
        push_section(push_section(s, key, a), key, b) == push_section(s, key, a + b),
{
    lemma_find_section(s, key);
    let i = find_section(s, key);
    let t = push_section(s, key, a);
    lemma_find_section(t, key);
    if i < 0 {
        assert forall|j: int| 0 <= j < s.len() implies (#[trigger] t[j]).0 != key by {
            assert(t[j] == s[j]);
        }
        assert(find_section(t, key) == s.len()) by {
            lemma_find_section_at(t, key, s.len() as int);
        }
        assert(t[s.len() as int].1 + b =~= a + b);
        assert(push_section(t, key, b) =~= push_section(s, key, a + b));
    } else {
        assert forall|j: int| 0 <= j < i implies (#[trigger] t[j]).0 != key by {
            assert(t[j] == s[j]);
        }
        assert(find_section(t, key) == i) by {
            lemma_find_section_at(t, key, i);
        }
        assert(t[i].1 + b =~= s[i].1 + (a + b));
        assert(push_section(t, key, b) =~= push_section(s, key, a + b));
    }
}

/// The first section under `key` is at `i` when it has that key and none before does.
proof fn lemma_find_section_at(s: Seq<SectionView>, key: Seq<char>, i: int)
    requires
        0 <= i < s.len(),
        s[i].0 == key,
        forall|j: int| 0 <= j < i ==> (#[trigger] s[j]).0 != key,
    ensures
        find_section(s, key) == i,
    decreases i,
{
    if i > 0 {
        let t = s.drop_first();
        assert forall|j: int| 0 <= j < i - 1 implies (#[trigger] t[j]).0 != key by {
            assert(t[j] == s[j + 1]);
        }
        lemma_find_section_at(t, key, i - 1);
    }
}

}
