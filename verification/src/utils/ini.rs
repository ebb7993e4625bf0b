//! INI texts, the format of the base configurations of Surge-like clients:
//! a preamble of lines, then sections, each a `[name]` line and the lines
//! that follow it.
use crate::generator::config::formats::loon::join;
use crate::text::{chars_of, push_all, push_str, slice_chars, split, split_char, string_of, string_views, trim, trim_chars, views};
use vstd::prelude::*;

verus! {

/// What an INI text holds: the lines before its first section, and each
/// section's name and lines, in order.
#[verifier::ext_equal]
pub struct IniView {
    pub preamble: Seq<Seq<char>>,
    pub sections: Seq<(Seq<char>, Seq<Seq<char>>)>,
}

/// A section of an INI text: its name and lines.
#[derive(Debug, Clone)]
pub struct IniSection {
    pub name: String,
    pub lines: Vec<String>,
}

/// The contents of an INI text (see [`IniView`]).
#[derive(Debug, Clone)]
pub struct IniSections {
    pub preamble: Vec<String>,
    pub sections: Vec<IniSection>,
}

/// The name and lines of each section.
pub open spec fn section_views(s: Seq<IniSection>) -> Seq<(Seq<char>, Seq<Seq<char>>)> {
    s.map_values(|x: IniSection| (x.name@, string_views(x.lines@)))
}

impl View for IniSections {
    type V = IniView;

    open spec fn view(&self) -> IniView {
        IniView { preamble: string_views(self.preamble@), sections: section_views(self.sections@) }
    }
}

/// A line without the carriage return that ends it, where it has one.
pub open spec fn no_cr(l: Seq<char>) -> Seq<char> {
    if l.len() > 0 && l.last() == '\r' {
        l.drop_last()
    } else {
        l
    }
}

/// The name of a section heading: a line that is, trimmed, `[name]`.
pub open spec fn heading(l: Seq<char>) -> Option<Seq<char>> {
    let t = trim(l);
    if t.len() >= 2 && t[0] == '[' && t[t.len() - 1] == ']' {
        Some(t.subrange(1, t.len() - 1))
    } else {
        None
    }
}

/// The contents after one more line: a heading opens a section; a blank
/// line is dropped; any other line goes to the last section, or to the
/// preamble before the first heading.
pub open spec fn ini_step(v: IniView, raw: Seq<char>) -> IniView {
    let l = no_cr(raw);
    match heading(l) {
        Some(n) => IniView { preamble: v.preamble, sections: v.sections.push((n, Seq::empty())) },
        None => if trim(l).len() == 0 {
            v
        } else if v.sections.len() == 0 {
            IniView { preamble: v.preamble.push(l), sections: v.sections }
        } else {
            let last = v.sections.last();
            IniView {
                preamble: v.preamble,
                sections: v.sections.update(v.sections.len() - 1, (last.0, last.1.push(l))),
            }
        },
    }
}

/// The contents of lines of an INI text.
pub open spec fn ini_lines(ls: Seq<Seq<char>>) -> IniView
    decreases ls.len(),
{
    if ls.len() == 0 {
        IniView { preamble: Seq::empty(), sections: Seq::empty() }
    } else {
        ini_step(ini_lines(ls.drop_last()), ls.last())
    }
}

/// The contents of an INI text, read line by line (see [`ini_step`]).
pub open spec fn ini_sections(text: Seq<char>) -> IniView {
    ini_lines(split_char(text, '\n'))
}

/// Lines, each ended by a line break.
pub open spec fn lines_text(ls: Seq<Seq<char>>) -> Seq<char>
    decreases ls.len(),
{
    if ls.len() == 0 {
        Seq::empty()
    } else {
        lines_text(ls.drop_last()) + ls.last() + "\n"@
    }
}

/// A section as text: its heading and its lines.
pub open spec fn section_text(s: (Seq<char>, Seq<Seq<char>>)) -> Seq<char> {
    "["@ + s.0 + "]\n"@ + lines_text(s.1)
}

/// INI contents as text: the preamble, then the sections with a blank line
/// between each two.
pub open spec fn ini_text_of(v: IniView) -> Seq<char> {
    lines_text(v.preamble) + join(v.sections.map_values(|s: (Seq<char>, Seq<Seq<char>>)| section_text(s)), "\n"@)
}

/// The index of the first section named `name`; -1 where there is none.
pub open spec fn section_index(secs: Seq<(Seq<char>, Seq<Seq<char>>)>, name: Seq<char>) -> int
    decreases secs.len(),
{
    if secs.len() == 0 {
        -1
    } else if section_index(secs.drop_last(), name) >= 0 {
        section_index(secs.drop_last(), name)
    } else if secs.last().0 == name {
        secs.len() - 1
    } else {
        -1
    }
}

/// The lines of the section `name`; none where there is no such section.
pub open spec fn section_lines(v: IniView, name: Seq<char>) -> Seq<Seq<char>> {
    let i = section_index(v.sections, name);
    if i >= 0 {
        v.sections[i].1
    } else {
        Seq::empty()
    }
}

/// The contents with the section `name` holding exactly `lines`: the first
/// section of that name has its lines replaced, or a new section is added
/// at the end.
pub open spec fn with_section(v: IniView, name: Seq<char>, lines: Seq<Seq<char>>) -> IniView {
    let i = section_index(v.sections, name);
    if i >= 0 {
        IniView { preamble: v.preamble, sections: v.sections.update(i, (name, lines)) }
    } else {
        IniView { preamble: v.preamble, sections: v.sections.push((name, lines)) }
    }
}

/// The contents with each of `updates` (name and lines) applied in turn
/// (see [`with_section`]).
pub open spec fn with_sections(v: IniView, updates: Seq<(Seq<char>, Seq<Seq<char>>)>) -> IniView
    decreases updates.len(),
{
    if updates.len() == 0 {
        v
    } else {
        let u = updates.last();
        with_section(with_sections(v, updates.drop_last()), u.0, u.1)
    }
}

// ---------------------------------------------------------------------------
// Executable functions
// ---------------------------------------------------------------------------
/// Copies of texts.
fn copy_strings(v: &Vec<String>) -> (r: Vec<String>)
    ensures
        string_views(r@) == string_views(v@),
{
    let r = crate::text::clone_strings(v);
    r
}

/// Reads an INI text (see [`ini_sections`]).
pub fn parse_ini(text: &str) -> (r: IniSections)
    ensures
        r@ == ini_sections(text@),
{
    let chars = chars_of(text);
    let lines = split(chars.as_slice(), '\n');
    let ghost lv = views(lines@);
    let mut r = IniSections { preamble: Vec::new(), sections: Vec::new() };
    let mut i: usize = 0;
    assert(lv.take(0) =~= Seq::<Seq<char>>::empty());
    assert(r@ =~= ini_lines(lv.take(0)));
    while i < lines.len()
        invariant
            i <= lines@.len(),
            lv == views(lines@),
            lv == split_char(text@, '\n'),
            r@ == ini_lines(lv.take(i as int)),
        decreases lines@.len() - i,
    {
        assert(lv.take(i + 1).drop_last() =~= lv.take(i as int));
        assert(lv.take(i + 1).last() == lines@[i as int]@);
        let raw = &lines[i];
        let l: Vec<char> = if raw.len() > 0 && raw[raw.len() - 1] == '\r' {
            let v = slice_chars(raw.as_slice(), 0, raw.len() - 1);
            assert(v@ =~= raw@.drop_last());
            v
        } else {
            let v = slice_chars(raw.as_slice(), 0, raw.len());
            assert(v@ =~= raw@);
            v
        };
        let t = trim_chars(l.as_slice());
        let ghost before = r@;
        if t.len() >= 2 && t[0] == '[' && t[t.len() - 1] == ']' {
            let name = slice_chars(t.as_slice(), 1, t.len() - 1);
            r.sections.push(IniSection { name: string_of(name.as_slice()), lines: Vec::new() });
            assert(string_views(Seq::<String>::empty()) =~= Seq::<Seq<char>>::empty());
            assert(section_views(r.sections@) =~= before.sections.push((name@, Seq::<Seq<char>>::empty())));
        } else if t.len() == 0 {
        } else if r.sections.len() == 0 {
            r.preamble.push(string_of(l.as_slice()));
            assert(string_views(r.preamble@) =~= before.preamble.push(l@));
        } else {
            let ghost secs0 = r.sections@;
            let mut last = r.sections.pop().unwrap();
            assert(last == secs0.last());
            assert(r.sections@ =~= secs0.drop_last());
            let line = string_of(l.as_slice());
            last.lines.push(line);
            assert(string_views(last.lines@) =~= string_views(secs0.last().lines@).push(l@));
            r.sections.push(last);
            assert(r.sections@ =~= secs0.drop_last().push(last));
            assert(section_views(r.sections@) =~= before.sections.update(
                before.sections.len() - 1,
                (before.sections.last().0, before.sections.last().1.push(l@)),
            ));
        }
        assert(r@ =~= ini_step(before, lv[i as int]));
        i = i + 1;
    }
    assert(lv.take(lv.len() as int) =~= lv);
    r
}

/// Appends lines, each ended by a line break (see [`lines_text`]).
fn push_lines(v: &mut Vec<char>, ls: &Vec<String>)
    ensures
        final(v)@ == old(v)@ + lines_text(string_views(ls@)),
{
    let ghost lv = string_views(ls@);
    let mut i: usize = 0;
    assert(lv.take(0) =~= Seq::<Seq<char>>::empty());
    assert(v@ =~= old(v)@ + lines_text(lv.take(0)));
    while i < ls.len()
        invariant
            i <= ls@.len(),
            lv == string_views(ls@),
            v@ == old(v)@ + lines_text(lv.take(i as int)),
        decreases ls@.len() - i,
    {
        assert(lv.take(i + 1).drop_last() =~= lv.take(i as int));
        assert(lv.take(i + 1).last() == ls@[i as int]@);
        push_str(v, ls[i].as_str());
        push_str(v, "\n");
        assert(v@ =~= old(v)@ + lines_text(lv.take(i + 1)));
        i = i + 1;
    }
    assert(lv.take(i as int) =~= lv);
}

/// INI contents as text (see [`ini_text_of`]).
pub fn ini_text(ini: &IniSections) -> (r: String)
    ensures
        r@ == ini_text_of(ini@),
{
    let mut v: Vec<char> = Vec::new();
    push_lines(&mut v, &ini.preamble);
    let ghost head = v@;
    let ghost texts = ini@.sections.map_values(|s: (Seq<char>, Seq<Seq<char>>)| section_text(s));
    let mut i: usize = 0;
    assert(texts.take(0) =~= Seq::<Seq<char>>::empty());
    assert(v@ =~= head + join(texts.take(0), "\n"@));
    while i < ini.sections.len()
        invariant
            i <= ini.sections@.len(),
            texts == ini@.sections.map_values(|s: (Seq<char>, Seq<Seq<char>>)| section_text(s)),
            texts.len() == ini.sections@.len(),
            v@ == head + join(texts.take(i as int), "\n"@),
        decreases ini.sections@.len() - i,
    {
        assert(texts.take(i + 1).drop_last() =~= texts.take(i as int));
        assert(texts.take(i + 1).last() == texts[i as int]);
        let ghost before = v@;
        if i > 0 {
            push_str(&mut v, "\n");
        }
        let s = &ini.sections[i];
        push_str(&mut v, "[");
        push_str(&mut v, s.name.as_str());
        push_str(&mut v, "]\n");
        push_lines(&mut v, &s.lines);
        assert(texts[i as int] == section_text((s.name@, string_views(s.lines@))));
        if i > 0 {
            assert(v@ =~= before + "\n"@ + texts[i as int]);
        } else {
            assert(texts.take(1) =~= seq![texts[0]]);
            assert(v@ =~= head + texts[i as int]);
        }
        i = i + 1;
    }
    assert(texts.take(i as int) =~= texts);
    string_of(v.as_slice())
}

/// The index of the first section of that name (see [`section_index`]).
fn find_section(secs: &Vec<IniSection>, name: &str) -> (r: Option<usize>)
    ensures
        match r {
            Some(i) => section_index(section_views(secs@), name@) == i as int && i < secs@.len(),
            None => section_index(section_views(secs@), name@) == -1,
        },
{
    let ghost sv = section_views(secs@);
    let mut i: usize = 0;
    assert(sv.take(0) =~= Seq::<(Seq<char>, Seq<Seq<char>>)>::empty());
    while i < secs.len()
        invariant
            i <= secs@.len(),
            sv == section_views(secs@),
            section_index(sv.take(i as int), name@) == -1,
        decreases secs@.len() - i,
    {
        assert(sv.take(i + 1).drop_last() =~= sv.take(i as int));
        assert(sv.take(i + 1).last() == sv[i as int]);
        if crate::text::eq_str(chars_of(secs[i].name.as_str()).as_slice(), name) {
            proof {
                lemma_index_prefix(sv, name@, i + 1);
            }
            return Some(i);
        }
        i = i + 1;
    }
    assert(sv.take(i as int) =~= sv);
    None
}

/// Where the first `j` sections hold the name, its first index among them
/// is its first index among all.
proof fn lemma_index_prefix(secs: Seq<(Seq<char>, Seq<Seq<char>>)>, name: Seq<char>, j: int)
    requires
        0 <= j <= secs.len(),
        section_index(secs.take(j), name) >= 0,
    ensures
        section_index(secs, name) == section_index(secs.take(j), name),
    decreases secs.len() - j,
{
    if j < secs.len() {
        assert(secs.take(j + 1).drop_last() =~= secs.take(j));
        lemma_index_prefix(secs, name, j + 1);
    } else {
        assert(secs.take(j) =~= secs);
    }
}

impl IniSections {
    /// Gives the section `name` exactly `lines` (see [`with_section`]).
    pub fn set_section(&mut self, name: &str, lines: Vec<String>)
        ensures
            final(self)@ == with_section(old(self)@, name@, string_views(lines@)),
    {
        let ghost before = self@;
        let nm = string_of(chars_of(name).as_slice());
        match find_section(&self.sections, name) {
            Some(i) => {
                let _old = self.sections.remove(i);
                self.sections.insert(i, IniSection { name: nm, lines });
                assert(section_views(self.sections@) =~= before.sections.update(
                    i as int,
                    (name@, string_views(lines@)),
                ));
            },
            None => {
                self.sections.push(IniSection { name: nm, lines });
                assert(section_views(self.sections@) =~= before.sections.push((name@, string_views(lines@))));
            },
        }
        assert(self@ =~= with_section(before, name@, string_views(lines@)));
    }

    /// The lines of the section `name` (see [`section_lines`]).
    pub fn get_section(&self, name: &str) -> (r: Vec<String>)
        ensures
            string_views(r@) == section_lines(self@, name@),
    {
        match find_section(&self.sections, name) {
            Some(i) => {
                assert(section_views(self.sections@)[i as int].1 == string_views(self.sections@[i as int].lines@));
                copy_strings(&self.sections[i].lines)
            },
            None => {
                let r: Vec<String> = Vec::new();
                assert(string_views(r@) =~= Seq::<Seq<char>>::empty());
                r
            },
        }
    }
}


/// The new lines of a section: those of the base section `name` where they
/// are kept, then `lines`.
pub open spec fn kept_then(base: IniView, keep: bool, name: Seq<char>, lines: Seq<Seq<char>>) -> Seq<Seq<char>> {
    (if keep {
        section_lines(base, name)
    } else {
        Seq::empty()
    }) + lines
}

/// The sections a conversion writes into the base configuration `base` of
/// a Surge-like client, in order: the nodes into `node_sec`, the groups into
/// `group_sec` (each after the base's own lines where those are kept), the
/// rules into `rule_sec` and, where the client has one, the remote rules
/// into `remote_sec` (each after the base's lines unless the rules are
/// overwritten).
pub open spec fn client_updates(
    base: IniView,
    node_sec: Seq<char>,
    keep_nodes: bool,
    nodes: Seq<Seq<char>>,
    group_sec: Seq<char>,
    keep_groups: bool,
    groups: Seq<Seq<char>>,
    rule_sec: Seq<char>,
    rules: Seq<Seq<char>>,
    remote_sec: Option<Seq<char>>,
    remote: Seq<Seq<char>>,
    overwrite: bool,
) -> Seq<(Seq<char>, Seq<Seq<char>>)> {
    seq![
        (node_sec, kept_then(base, keep_nodes, node_sec, nodes)),
        (group_sec, kept_then(base, keep_groups, group_sec, groups)),
        (rule_sec, kept_then(base, !overwrite, rule_sec, rules)),
    ] + match remote_sec {
        Some(n) => seq![(n, kept_then(base, !overwrite, n, remote))],
        None => Seq::empty(),
    }
}

/// The lines of the base section `name` where they are kept, then `lines`
/// (see [`kept_then`]).
fn kept_then_exec(base: &IniSections, keep: bool, name: &str, lines: &Vec<String>) -> (r: Vec<String>)
    ensures
        string_views(r@) == kept_then(base@, keep, name@, string_views(lines@)),
{
    let mut out: Vec<String> = if keep {
        base.get_section(name)
    } else {
        Vec::new()
    };
    let ghost head = string_views(out@);
    assert(head =~= (if keep {
        section_lines(base@, name@)
    } else {
        Seq::empty()
    }));
    let mut i: usize = 0;
    while i < lines.len()
        invariant
            i <= lines@.len(),
            string_views(out@) == head + string_views(lines@).take(i as int),
        decreases lines@.len() - i,
    {
        let ghost b = string_views(out@);
        out.push(lines[i].clone());
        assert(string_views(out@) =~= b.push(lines@[i as int]@));
        assert(string_views(lines@).take(i + 1) =~= string_views(lines@).take(i as int).push(lines@[i as int]@));
        i = i + 1;
    }
    assert(string_views(lines@).take(i as int) =~= string_views(lines@));
    out
}

/// The configuration of a Surge-like client: the base configuration `base`
/// with the sections of a conversion (see [`client_updates`]) in place and
/// every other section as it was.
pub fn client_config(
    base: &str,
    node_sec: &str,
    keep_nodes: bool,
    nodes: &Vec<String>,
    group_sec: &str,
    keep_groups: bool,
    groups: &Vec<String>,
    rule_sec: &str,
    rules: &Vec<String>,
    remote_sec: Option<&str>,
    remote: &Vec<String>,
    overwrite: bool,
) -> (r: String)
    ensures
        r@ == ini_text_of(
            with_sections(
                ini_sections(base@),
                client_updates(
                    ini_sections(base@),
                    node_sec@,
                    keep_nodes,
                    string_views(nodes@),
                    group_sec@,
                    keep_groups,
                    string_views(groups@),
                    rule_sec@,
                    string_views(rules@),
                    match remote_sec {
                        Some(n) => Some(n@),
                        None => None,
                    },
                    string_views(remote@),
                    overwrite,
                ),
            ),
        ),
{
    let mut ini = parse_ini(base);
    let ghost base_v = ini@;
    let ghost updates = client_updates(
        base_v,
        node_sec@,
        keep_nodes,
        string_views(nodes@),
        group_sec@,
        keep_groups,
        string_views(groups@),
        rule_sec@,
        string_views(rules@),
        match remote_sec {
            Some(n) => Some(n@),
            None => None,
        },
        string_views(remote@),
        overwrite,
    );
    let n = kept_then_exec(&ini, keep_nodes, node_sec, nodes);
    let g = kept_then_exec(&ini, keep_groups, group_sec, groups);
    let rl = kept_then_exec(&ini, !overwrite, rule_sec, rules);
    let rm = match remote_sec {
        Some(name) => Some(kept_then_exec(&ini, !overwrite, name, remote)),
        None => None,
    };
    assert(updates[0] == (node_sec@, string_views(n@)));
    assert(updates[1] == (group_sec@, string_views(g@)));
    assert(updates[2] == (rule_sec@, string_views(rl@)));
    assert(with_sections(base_v, Seq::<(Seq<char>, Seq<Seq<char>>)>::empty()) == base_v);
    ini.set_section(node_sec, n);
    let ghost v1 = ini@;
    ini.set_section(group_sec, g);
    let ghost v2 = ini@;
    ini.set_section(rule_sec, rl);
    let ghost v3 = ini@;
    proof {
        let t1 = updates.take(1);
        let t2 = updates.take(2);
        let t3 = updates.take(3);
        assert(t1.drop_last() =~= Seq::<(Seq<char>, Seq<Seq<char>>)>::empty());
        assert(t1.last() == updates[0]);
        assert(with_sections(base_v, t1) == v1);
        assert(t2.drop_last() =~= t1);
        assert(t2.last() == updates[1]);
        assert(with_sections(base_v, t2) == v2);
        assert(t3.drop_last() =~= t2);
        assert(t3.last() == updates[2]);
        assert(with_sections(base_v, t3) == v3);
    }
    match (remote_sec, rm) {
        (Some(name), Some(lines)) => {
            assert(updates[3] == (name@, string_views(lines@)));
            ini.set_section(name, lines);
            proof {
                assert(updates.len() == 4);
                assert(updates.last() == updates[3]);
                assert(updates.drop_last() =~= updates.take(3));
            }
        },
        _ => {
            proof {
                assert(updates =~= updates.take(3));
            }
        },
    }
    ini_text(&ini)
}

} // verus!
