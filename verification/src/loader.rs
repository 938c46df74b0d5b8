//! From the files of a configuration directory to the timers that they
//! define.
//!
//! The caller lists the directory and reads the files; a directory that
//! does not exist is an empty list.

use crate::definition::{parse_unit, same_text, unit_of_text, DefinitionError};
use crate::unit::{TimerUnit, UnitModel};
use vstd::prelude::*;

verus! {

/// One file of the configuration directory: its name, without the
/// directory, and what it holds.
#[derive(Clone, Debug, PartialEq, Eq)]
pub struct DefinitionFile {
    pub file_name: String,
    pub content: String,
}

/// The first definition that could not be read: its place in the list,
/// its file name, and what is wrong with it.
#[derive(Clone, Debug, PartialEq, Eq)]
pub struct LoadError {
    pub index: usize,
    pub file_name: String,
    pub cause: DefinitionError,
}

/// The place of the last dot before `end`, if there is a dot there.
pub open spec fn last_dot_before(name: Seq<char>, end: int) -> Option<int>
    decreases end,
{
    if end <= 0 || end > name.len() {
        None
    } else if name[end - 1] == '.' {
        Some(end - 1)
    } else {
        last_dot_before(name, end - 1)
    }
}

/// The place of the dot that parts a file name into stem and extension:
/// its last dot, unless that is its first character. The name `..` has
/// no such dot.
pub open spec fn split_point(name: Seq<char>) -> Option<int> {
    if name == ".."@ {
        None
    } else {
        match last_dot_before(name, name.len() as int) {
            Some(i) => if i > 0 { Some(i) } else { None },
            None => None,
        }
    }
}

/// What follows the parting dot of a file name.
pub open spec fn extension_of(name: Seq<char>) -> Option<Seq<char>> {
    match split_point(name) {
        Some(i) => Some(name.subrange(i + 1, name.len() as int)),
        None => None,
    }
}

/// What stands before the parting dot of a file name; the whole name
/// where it has none.
pub open spec fn stem_of(name: Seq<char>) -> Seq<char> {
    match split_point(name) {
        Some(i) => name.subrange(0, i),
        None => name,
    }
}

/// Whether a file name is that of a timer definition: its extension is
/// `toml`.
pub open spec fn is_definition_name(name: Seq<char>) -> bool {
    extension_of(name) == Some("toml"@)
}

/// Whether a file is no obstacle to loading: it is no definition, or one
/// that makes a unit.
pub open spec fn file_ok(f: DefinitionFile) -> bool {
    !is_definition_name(f.file_name@) || unit_of_text(f.content@) is Ok
}

/// The timers that the first `n` files define, in the files' order, each
/// under the stem of its file name.
pub open spec fn records_of(files: Seq<DefinitionFile>, n: int) -> Seq<(Seq<char>, UnitModel)>
    decreases n,
{
    if n <= 0 || n > files.len() {
        Seq::empty()
    } else {
        let rest = records_of(files, n - 1);
        let f = files[n - 1];
        if is_definition_name(f.file_name@) && unit_of_text(f.content@) is Ok {
            rest.push((stem_of(f.file_name@), unit_of_text(f.content@)->Ok_0))
        } else {
            rest
        }
    }
}

/// How many of the first `n` files have the name of a definition.
pub open spec fn definitions_among(files: Seq<DefinitionFile>, n: int) -> nat
    decreases n,
{
    if n <= 0 || n > files.len() {
        0
    } else if is_definition_name(files[n - 1].file_name@) {
        definitions_among(files, n - 1) + 1
    } else {
        definitions_among(files, n - 1)
    }
}

/// Named timers as plain values.
pub open spec fn records_model(records: Seq<(String, TimerUnit)>) -> Seq<(Seq<char>, UnitModel)> {
    records.map_values(|p: (String, TimerUnit)| (p.0@, p.1@))
}

/// The place of the parting dot of a file name, if it has one.
fn find_split(name: &str) -> (r: Option<usize>)
    ensures
        match r {
            Some(i) => split_point(name@) == Some(i as int) && 0 < i < name@.len(),
            None => split_point(name@) is None,
        },
{
    if same_text(name, "..") {
        return None;
    }
    let mut end: usize = name.unicode_len();
    while end > 0
        invariant
            end <= name@.len(),
            name@ != ".."@,
            last_dot_before(name@, name@.len() as int) == last_dot_before(name@, end as int),
        decreases end,
    {
        if name.get_char(end - 1) == '.' {
            assert(last_dot_before(name@, end as int) == Some(end - 1));
            if end - 1 > 0 {
                return Some(end - 1);
            } else {
                return None;
            }
        }
        assert(last_dot_before(name@, end as int) == last_dot_before(name@, end - 1));
        end = end - 1;
    }
    None
}

/// Whether a file name is that of a timer definition.
pub fn is_definition_file(file_name: &str) -> (r: bool)
    ensures
        r == is_definition_name(file_name@),
{
    match find_split(file_name) {
        Some(i) => {
            let len: usize = file_name.unicode_len();
            let extension = file_name.substring_char(i + 1, len);
            same_text(extension, "toml")
        },
        None => false,
    }
}

/// The name of the timer that a file defines: the stem of the file's name.
pub fn unit_name(file_name: &str) -> (r: String)
    ensures
        r@ == stem_of(file_name@),
{
    match find_split(file_name) {
        Some(i) => file_name.substring_char(0, i).to_owned(),
        None => file_name.to_owned(),
    }
}

/// Reads the definitions among the files of a directory, in the files'
/// order. Files with other names are passed over. At the first definition
/// that makes no unit, loading ends with that file's fault and nothing is
/// loaded.
pub fn load_units(files: &Vec<DefinitionFile>) -> (r: Result<Vec<(String, TimerUnit)>, LoadError>)
    ensures
        match r {
            Ok(records) => {
                &&& forall|i: int| 0 <= i < files@.len() ==> file_ok(#[trigger] files@[i])
                &&& records_model(records@) == records_of(files@, files@.len() as int)
            },
            Err(e) => {
                &&& e.index < files@.len()
                &&& forall|i: int| 0 <= i < e.index ==> file_ok(#[trigger] files@[i])
                &&& is_definition_name(files@[e.index as int].file_name@)
                &&& unit_of_text(files@[e.index as int].content@) == Err::<
                    UnitModel,
                    DefinitionError,
                >(e.cause)
                &&& e.file_name@ == files@[e.index as int].file_name@
            },
        },
{
    let mut records: Vec<(String, TimerUnit)> = Vec::new();
    let mut i: usize = 0;
    while i < files.len()
        invariant
            i <= files@.len(),
            forall|j: int| 0 <= j < i ==> file_ok(#[trigger] files@[j]),
            records_model(records@) == records_of(files@, i as int),
        decreases files@.len() - i,
    {
        let file = &files[i];
        if is_definition_file(file.file_name.as_str()) {
            match parse_unit(file.content.as_str()) {
                Ok(unit) => {
                    let name = unit_name(file.file_name.as_str());
                    let ghost before = records@;
                    let ghost added = (name@, unit@);
                    records.push((name, unit));
                    assert(records_model(records@) =~= records_model(before).push(added));
                },
                Err(cause) => {
                    return Err(LoadError { index: i, file_name: file.file_name.clone(), cause });
                },
            }
        }
        i = i + 1;
    }
    Ok(records)
}

/// Where every definition among the first `n` files makes a unit, as many
/// timers are loaded from them as there are definitions among them; from
/// no files, none.
pub proof fn lemma_one_record_per_definition(files: Seq<DefinitionFile>, n: int)
    requires
        0 <= n <= files.len(),
        forall|i: int| 0 <= i < n ==> file_ok(#[trigger] files[i]),
    ensures
        records_of(files, n).len() == definitions_among(files, n),
        records_of(files, 0).len() == 0,
    decreases n,
{
    if n > 0 {
        lemma_one_record_per_definition(files, n - 1);
        assert(file_ok(files[n - 1]));
    }
}

/// Whether the file at a place is a definition that makes a unit.
pub open spec fn defines(files: Seq<DefinitionFile>, i: int) -> bool {
    &&& 0 <= i < files.len()
    &&& is_definition_name(files[i].file_name@)
    &&& unit_of_text(files[i].content@) is Ok
}

/// The timer that the file at a place defines.
pub open spec fn record_at(files: Seq<DefinitionFile>, i: int) -> (Seq<char>, UnitModel) {
    (stem_of(files[i].file_name@), unit_of_text(files[i].content@)->Ok_0)
}

/// The timers loaded are those that the definitions among the files make,
/// and no others: which timers are loaded does not depend on the order of
/// the files.
pub proof fn lemma_records_are_the_definitions(
    files: Seq<DefinitionFile>,
    n: int,
    r: (Seq<char>, UnitModel),
)
    requires
        0 <= n <= files.len(),
    ensures
        records_of(files, n).contains(r) <==> exists|i: int|
            i < n && #[trigger] defines(files, i) && r == record_at(files, i),
    decreases n,
{
    if n > 0 {
        lemma_records_are_the_definitions(files, n - 1, r);
        let rest = records_of(files, n - 1);
        let all = records_of(files, n);
        if defines(files, n - 1) {
            assert(all == rest.push(record_at(files, n - 1)));
            if all.contains(r) {
                let k = choose|k: int| 0 <= k < all.len() && all[k] == r;
                if k < rest.len() {
                    assert(rest[k] == r);
                    assert(rest.contains(r));
                } else {
                    assert(defines(files, n - 1) && r == record_at(files, n - 1));
                }
            }
            if exists|i: int| i < n && #[trigger] defines(files, i) && r == record_at(files, i) {
                let i = choose|i: int| i < n && #[trigger] defines(files, i) && r == record_at(files, i);
                if i == n - 1 {
                    assert(all[rest.len() as int] == r);
                } else {
                    assert(i < n - 1 && defines(files, i));
                    assert(rest.contains(r));
                    let k = choose|k: int| 0 <= k < rest.len() && rest[k] == r;
                    assert(all[k] == r);
                }
            }
        } else {
            assert(all == rest);
            if exists|i: int| i < n && #[trigger] defines(files, i) && r == record_at(files, i) {
                let i = choose|i: int| i < n && #[trigger] defines(files, i) && r == record_at(files, i);
                assert(i < n - 1 && defines(files, i));
            }
        }
    }
}

/// A definition's file name is its stem, a dot, and `toml`: two
/// definitions of one directory never make timers of one name.
pub proof fn lemma_stem_identifies_definition(a: Seq<char>, b: Seq<char>)
    requires
        is_definition_name(a),
        is_definition_name(b),
        stem_of(a) == stem_of(b),
    ensures
        a == b,
{
    let i = split_point(a)->Some_0;
    let j = split_point(b)->Some_0;
    lemma_split_point_in_range(a);
    lemma_split_point_in_range(b);
    assert(stem_of(a).len() == i);
    assert(stem_of(b).len() == j);
    assert(a =~= a.subrange(0, i) + seq!['.'] + a.subrange(i + 1, a.len() as int));
    assert(b =~= b.subrange(0, j) + seq!['.'] + b.subrange(j + 1, b.len() as int));
}

/// The last dot before `end`, where there is one, is a dot of the name.
pub proof fn lemma_last_dot_is_a_dot(name: Seq<char>, end: int)
    ensures
        last_dot_before(name, end) is Some ==> {
            &&& 0 <= last_dot_before(name, end)->Some_0 < end <= name.len()
            &&& name[last_dot_before(name, end)->Some_0] == '.'
        },
    decreases end,
{
    if 0 < end <= name.len() && name[end - 1] != '.' {
        lemma_last_dot_is_a_dot(name, end - 1);
    }
}

/// The parting dot of a file name stands inside the name, after its first
/// character.
pub proof fn lemma_split_point_in_range(name: Seq<char>)
    ensures
        split_point(name) is Some ==> {
            &&& 0 < split_point(name)->Some_0 < name.len()
            &&& name[split_point(name)->Some_0] == '.'
        },
{
    lemma_last_dot_is_a_dot(name, name.len() as int);
}

} // verus!
