//! The interface-description data model: ports, generics, the unit that owns
//! them, and the port filter that every renderer shares.

use vstd::prelude::*;

verus! {

/// Which way a port carries data, seen from the unit under test.
#[derive(Clone, Copy, Debug, PartialEq, Eq, Structural)]
pub enum Direction {
    Input,
    Output,
}

/// Target hardware-description dialect of a unit.
///
/// `Verilog` is recognised but has no renderer yet: every render request for
/// it fails with [`LinkError::UnsupportedDialect`] before any text is built.
#[derive(Clone, Copy, Debug, PartialEq, Eq, Structural)]
pub enum Language {
    Vhdl,
    SystemVerilog,
    Verilog,
}

/// The failure a render request can end in.
#[derive(Clone, Copy, Debug, PartialEq, Eq, Structural)]
pub enum LinkError {
    /// The unit's dialect has no renderer; no partial text is produced.
    UnsupportedDialect,
}

/// Mathematical image of a [`Net`]: its strings as character sequences.
pub ghost struct NetModel {
    pub identifier: Seq<char>,
    pub direction: Direction,
    pub net_type: Seq<char>,
    pub mode: Seq<char>,
}

/// One port or generic of a unit: an identifier, a direction, the target
/// dialect's type expression (opaque here) and a mode word used when the
/// entry stands in a parameter declaration.
pub struct Net {
    identifier: String,
    direction: Direction,
    net_type: String,
    mode: String,
}

impl View for Net {
    type V = NetModel;

    closed spec fn view(&self) -> NetModel {
        NetModel {
            identifier: self.identifier@,
            direction: self.direction,
            net_type: self.net_type@,
            mode: self.mode@,
        }
    }
}

impl DeepView for Net {
    type V = NetModel;

    open spec fn deep_view(&self) -> NetModel {
        self.view()
    }
}

impl Net {
    pub fn new(identifier: String, direction: Direction, net_type: String, mode: String) -> (r:
        Net)
        ensures
            r@ == (NetModel {
                identifier: identifier@,
                direction: direction,
                net_type: net_type@,
                mode: mode@,
            }),
    {
        Net { identifier, direction, net_type, mode }
    }

    pub fn get_identifier(&self) -> (r: &String)
        ensures
            r@ == self@.identifier,
    {
        &self.identifier
    }

    pub fn get_type(&self) -> (r: &String)
        ensures
            r@ == self@.net_type,
    {
        &self.net_type
    }

    pub fn get_mode(&self) -> (r: &String)
        ensures
            r@ == self@.mode,
    {
        &self.mode
    }

    pub fn is_input(&self) -> (r: bool)
        ensures
            r == (self@.direction == Direction::Input),
    {
        self.direction == Direction::Input
    }

    pub fn is_output(&self) -> (r: bool)
        ensures
            r == (self@.direction == Direction::Output),
    {
        self.direction == Direction::Output
    }
}

/// Mathematical image of a [`Unit`].
pub ghost struct UnitModel {
    pub identifier: Seq<char>,
    pub language: Language,
    pub ports: Seq<NetModel>,
    pub generics: Seq<NetModel>,
}

/// A hardware unit's interface description: its identifier, target dialect,
/// ordered ports and ordered generics. Built once from external input and
/// read-only afterwards; port order is significant and is preserved by every
/// renderer.
pub struct Unit {
    identifier: String,
    language: Language,
    ports: Vec<Net>,
    generics: Vec<Net>,
}

impl View for Unit {
    type V = UnitModel;

    closed spec fn view(&self) -> UnitModel {
        UnitModel {
            identifier: self.identifier@,
            language: self.language,
            ports: self.ports.deep_view(),
            generics: self.generics.deep_view(),
        }
    }
}

impl Unit {
    pub fn new(identifier: String, language: Language, ports: Vec<Net>, generics: Vec<Net>) -> (r:
        Unit)
        ensures
            r@ == (UnitModel {
                identifier: identifier@,
                language: language,
                ports: ports.deep_view(),
                generics: generics.deep_view(),
            }),
    {
        Unit { identifier, language, ports, generics }
    }

    pub fn get_identifier(&self) -> (r: &String)
        ensures
            r@ == self@.identifier,
    {
        &self.identifier
    }

    pub fn get_language(&self) -> (r: &Language)
        ensures
            *r == self@.language,
    {
        &self.language
    }

    pub fn get_ports(&self) -> (r: &Vec<Net>)
        ensures
            r.deep_view() == self@.ports,
    {
        &self.ports
    }

    pub fn get_generics(&self) -> (r: &Vec<Net>)
        ensures
            r.deep_view() == self@.generics,
    {
        &self.generics
    }
}

/// The ports of `ports` whose identifier is not in `excluded`, in their
/// original order. An excluded identifier that matches no port is silently
/// a no-op.
pub open spec fn kept_ports(ports: Seq<NetModel>, excluded: Seq<Seq<char>>) -> Seq<NetModel>
    decreases ports.len(),
{
    if ports.len() == 0 {
        Seq::empty()
    } else {
        let front = kept_ports(ports.drop_last(), excluded);
        if excluded.contains(ports.last().identifier) {
            front
        } else {
            front.push(ports.last())
        }
    }
}

/// The ports of `ports` that carry data in direction `dir`, in their
/// original order.
pub open spec fn ports_in_direction(ports: Seq<NetModel>, dir: Direction) -> Seq<NetModel>
    decreases ports.len(),
{
    if ports.len() == 0 {
        Seq::empty()
    } else {
        let front = ports_in_direction(ports.drop_last(), dir);
        if ports.last().direction == dir {
            front.push(ports.last())
        } else {
            front
        }
    }
}

/// The identifiers of `ports`, in port order.
pub open spec fn identifiers_of(ports: Seq<NetModel>) -> Seq<Seq<char>> {
    ports.map_values(|p: NetModel| p.identifier)
}

/// Whether one of the strings in `haystack` reads as `needle`.
pub fn contains_string(haystack: &Vec<String>, needle: &String) -> (r: bool)
    ensures
        r == haystack.deep_view().contains(needle@),
{
    let ghost model = haystack.deep_view();
    let n: usize = haystack.len();
    let mut i: usize = 0;
    while i < n
        invariant
            i <= n,
            n == haystack.len(),
            model == haystack.deep_view(),
            forall|j: int| 0 <= j < i ==> model[j] != needle@,
        decreases n - i,
    {
        if haystack[i].eq(needle) {
            assert(model[i as int] == needle@);
            return true;
        }
        i = i + 1;
    }
    assert(forall|j: int| 0 <= j < model.len() ==> model[j] != needle@);
    false
}

/// Remove every port whose identifier stands in `excluded`; order is
/// preserved and unknown identifiers are ignored. Shared by all renderers:
/// filtering happens once, before any text is built.
pub fn filter_ports<'a>(ports: &'a Vec<Net>, excluded: &Vec<String>) -> (r: Vec<&'a Net>)
    ensures
        r.deep_view() == kept_ports(ports.deep_view(), excluded.deep_view()),
{
    let ghost pm = ports.deep_view();
    let ghost em = excluded.deep_view();
    let n: usize = ports.len();
    let mut result: Vec<&'a Net> = Vec::new();
    let mut i: usize = 0;
    while i < n
        invariant
            i <= n,
            n == ports.len(),
            pm == ports.deep_view(),
            em == excluded.deep_view(),
            result.deep_view() == kept_ports(pm.take(i as int), em),
        decreases n - i,
    {
        let ghost prefix = pm.take(i as int);
        let ghost next = pm.take(i as int + 1);
        proof {
            assert(next.drop_last() =~= prefix);
            assert(next.last() == pm[i as int]);
        }
        if !contains_string(excluded, ports[i].get_identifier()) {
            result.push(&ports[i]);
        }
        proof {
            assert(result.deep_view() =~= kept_ports(next, em));
        }
        i = i + 1;
    }
    proof {
        assert(pm.take(n as int) =~= pm);
    }
    result
}

/// Keep only the ports with direction `dir`, preserving order.
pub fn filter_direction<'a>(ports: &Vec<&'a Net>, dir: Direction) -> (r: Vec<&'a Net>)
    ensures
        r.deep_view() == ports_in_direction(ports.deep_view(), dir),
{
    let ghost pm = ports.deep_view();
    let n: usize = ports.len();
    let mut result: Vec<&'a Net> = Vec::new();
    let mut i: usize = 0;
    while i < n
        invariant
            i <= n,
            n == ports.len(),
            pm == ports.deep_view(),
            result.deep_view() == ports_in_direction(pm.take(i as int), dir),
        decreases n - i,
    {
        let ghost prefix = pm.take(i as int);
        let ghost next = pm.take(i as int + 1);
        proof {
            assert(next.drop_last() =~= prefix);
            assert(next.last() == pm[i as int]);
        }
        let keep = if matches!(dir, Direction::Input) {
            ports[i].is_input()
        } else {
            ports[i].is_output()
        };
        if keep {
            result.push(ports[i]);
        }
        proof {
            assert(result.deep_view() =~= ports_in_direction(next, dir));
        }
        i = i + 1;
    }
    proof {
        assert(pm.take(n as int) =~= pm);
    }
    result
}

} // verus!
