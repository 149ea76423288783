//! External player and downloader programs: the known programs, the
//! decision which of them are available, and the object path a program is
//! activated under.
//!
//! The bus itself is outside this crate: callers list the activatable bus
//! names and hand them in; the functions here decide which programs those
//! names resolve to.

use vstd::prelude::*;

use crate::text::str_eq;

verus! {

/// An external program that can play or download a stream, identified by
/// its bus name.
#[derive(Debug)]
pub struct ExternalProgram {
    pub name: String,
    pub id: String,
}

impl ExternalProgram {
    pub fn new(name: &str, id: &str) -> (r: ExternalProgram)
        ensures
            r.name@ == name@,
            r.id@ == id@,
    {
        ExternalProgram { name: String::from_str(name), id: String::from_str(id) }
    }

    /// Resolves a program by its id against the activatable bus names:
    /// the program exists exactly when some activatable name equals the
    /// id.
    pub fn find(name: &str, id: &str, activatable: &Vec<String>) -> (r: Option<ExternalProgram>)
        ensures
            (exists|i: int| 0 <= i < activatable@.len() && activatable@[i]@ == id@) ==> (r
                matches Some(p) && p.name@ == name@ && p.id@ == id@),
            (forall|i: int| 0 <= i < activatable@.len() ==> activatable@[i]@ != id@) ==> r
                is None,
    {
        let n = activatable.len();
        let mut i: usize = 0;
        while i < n
            invariant
                i <= n,
                n == activatable@.len(),
                forall|k: int| 0 <= k < i ==> activatable@[k]@ != id@,
            decreases n - i,
        {
            if str_eq(activatable[i].as_str(), id) {
                return Some(ExternalProgram::new(name, id));
            }
            i += 1;
        }
        None
    }

    /// Of the known programs, the first whose id is `id`.
    pub open spec fn first_with_id(
        known: Seq<ExternalProgram>,
        id: Seq<char>,
    ) -> Option<ExternalProgram>
        decreases known.len(),
    {
        if known.len() == 0 {
            None
        } else if known[0].id@ == id {
            Some(known[0])
        } else {
            Self::first_with_id(known.drop_first(), id)
        }
    }

    /// The known programs that the activatable bus names resolve to, in
    /// bus-name order: each activatable name contributes the first known
    /// program carrying it.
    pub open spec fn found_known(
        known: Seq<ExternalProgram>,
        names: Seq<Seq<char>>,
    ) -> Seq<ExternalProgram>
        decreases names.len(),
    {
        if names.len() == 0 {
            Seq::empty()
        } else {
            Self::found_known(known, names.drop_last()) + (match Self::first_with_id(
                known,
                names.last(),
            ) {
                Some(p) => seq![p],
                None => Seq::empty(),
            })
        }
    }

    /// Filters the known programs of one kind down to those the
    /// activatable bus names offer, per [`ExternalProgram::found_known`].
    pub fn find_known(known: &Vec<ExternalProgram>, activatable: &Vec<String>) -> (r: Vec<
        ExternalProgram,
    >)
        ensures
            r@ == Self::found_known(known@, activatable@.map_values(|s: String| s@)),
    {
        let ghost all_names = activatable@.map_values(|s: String| s@);
        let mut r: Vec<ExternalProgram> = Vec::new();
        let n = activatable.len();
        let mut i: usize = 0;
        while i < n
            invariant
                i <= n,
                n == activatable@.len(),
                all_names == activatable@.map_values(|s: String| s@),
                r@ == Self::found_known(known@, all_names.take(i as int)),
            decreases n - i,
        {
            proof {
                assert(all_names.take(i + 1).drop_last() =~= all_names.take(i as int));
                assert(all_names.take(i + 1).last() == activatable@[i as int]@);
            }
            let bus = &activatable[i];
            match Self::find_first(known, bus.as_str()) {
                Some(p) => {
                    let found = p.clone();
                    r.push(found);
                },
                None => {},
            }
            i += 1;
        }
        proof {
            assert(all_names.take(n as int) =~= all_names);
        }
        r
    }

    /// The first known program whose id equals `id`, per
    /// [`ExternalProgram::first_with_id`].
    fn find_first<'a>(known: &'a Vec<ExternalProgram>, id: &str) -> (r: Option<
        &'a ExternalProgram,
    >)
        ensures
            match r {
                Some(p) => Self::first_with_id(known@, id@) == Some(*p),
                None => Self::first_with_id(known@, id@) is None,
            },
    {
        let n = known.len();
        let mut j: usize = 0;
        while j < n
            invariant
                j <= n,
                n == known@.len(),
                forall|k: int| 0 <= k < j ==> known@[k].id@ != id@,
            decreases n - j,
        {
            if str_eq(known[j].id.as_str(), id) {
                proof {
                    lemma_first_with_id_at(known@, id@, j as int);
                }
                return Some(&known[j]);
            }
            j += 1;
        }
        proof {
            lemma_first_with_id_none(known@, id@);
        }
        None
    }
}

impl Clone for ExternalProgram {
    fn clone(&self) -> (r: Self)
        ensures
            r == *self,
    {
        ExternalProgram { name: self.name.clone(), id: self.id.clone() }
    }
}

impl PartialEq for ExternalProgram {
    fn eq(&self, other: &Self) -> bool {
        self.name == other.name && self.id == other.id
    }
}

impl vstd::std_specs::cmp::PartialEqSpecImpl for ExternalProgram {
    open spec fn obeys_eq_spec() -> bool {
        true
    }

    open spec fn eq_spec(&self, other: &ExternalProgram) -> bool {
        self.name@ == other.name@ && self.id@ == other.id@
    }
}

/// The kind of external program being chosen.
#[derive(Clone, Copy, Debug, PartialEq, Eq, Structural)]
pub enum ExternalProgramType {
    Player,
    Downloader,
}

proof fn lemma_first_with_id_at(known: Seq<ExternalProgram>, id: Seq<char>, j: int)
    requires
        0 <= j < known.len(),
        known[j].id@ == id,
        forall|k: int| 0 <= k < j ==> known[k].id@ != id,
    ensures
        ExternalProgram::first_with_id(known, id) == Some(known[j]),
    decreases j,
{
    if j > 0 {
        lemma_first_with_id_at(known.drop_first(), id, j - 1);
    }
}

proof fn lemma_first_with_id_none(known: Seq<ExternalProgram>, id: Seq<char>)
    requires
        forall|k: int| 0 <= k < known.len() ==> known[k].id@ != id,
    ensures
        ExternalProgram::first_with_id(known, id) is None,
    decreases known.len(),
{
    if known.len() > 0 {
        lemma_first_with_id_none(known.drop_first(), id);
    }
}

/// The players known to support activation with a stream URI.
pub fn known_players() -> (r: Vec<ExternalProgram>)
    ensures
        r@.len() == 4,
        r@[0].name@ == "Videos"@ && r@[0].id@ == "org.gnome.Totem"@,
        r@[1].name@ == "Celluloid"@ && r@[1].id@ == "io.github.celluloid_player.Celluloid"@,
        r@[2].name@ == "Clapper"@ && r@[2].id@ == "com.github.rafostar.Clapper"@,
        r@[3].name@ == "Daikhan"@ && r@[3].id@ == "io.gitlab.daikhan.stable"@,
{
    let mut r: Vec<ExternalProgram> = Vec::new();
    r.push(ExternalProgram::new("Videos", "org.gnome.Totem"));
    r.push(ExternalProgram::new("Celluloid", "io.github.celluloid_player.Celluloid"));
    r.push(ExternalProgram::new("Clapper", "com.github.rafostar.Clapper"));
    r.push(ExternalProgram::new("Daikhan", "io.gitlab.daikhan.stable"));
    r
}

/// The downloaders known to support activation with a stream URI.
pub fn known_downloaders() -> (r: Vec<ExternalProgram>)
    ensures
        r@.len() == 1,
        r@[0].name@ == "Parabolic"@ && r@[0].id@ == "org.nickvision.tubeconverter"@,
{
    let mut r: Vec<ExternalProgram> = Vec::new();
    r.push(ExternalProgram::new("Parabolic", "org.nickvision.tubeconverter"));
    r
}

/// A dot becomes a path separator; every other character stays.
pub open spec fn slashed(c: char) -> char {
    if c == '.' {
        '/'
    } else {
        c
    }
}

/// The object path a program's id maps to for activation: a leading slash,
/// then the id with every dot replaced by a slash.
pub open spec fn spec_object_path(id: Seq<char>) -> Seq<char>
    decreases id.len(),
{
    if id.len() == 0 {
        seq!['/']
    } else {
        spec_object_path(id.drop_last()).push(slashed(id.last()))
    }
}

/// The object path a program with the given id is activated under.
pub fn object_path(id: &str) -> (r: String)
    ensures
        r@ == spec_object_path(id@),
{
    proof {
        reveal_strlit("/");
    }
    let n = id.unicode_len();
    let mut out = String::from_str("/");
    let mut i: usize = 0;
    while i < n
        invariant
            i <= n,
            n == id@.len(),
            out@ == spec_object_path(id@.take(i as int)),
        decreases n - i,
    {
        proof {
            reveal_strlit("/");
            assert(id@.take(i + 1).drop_last() =~= id@.take(i as int));
            assert(id@.take(i + 1).last() == id@[i as int]);
        }
        let c = id.get_char(i);
        if c == '.' {
            out.append("/");
        } else {
            let piece = id.substring_char(i, i + 1);
            out.append(piece);
        }
        proof {
            assert(out@ =~= spec_object_path(id@.take(i + 1)));
        }
        i += 1;
    }
    proof {
        assert(id@.take(n as int) =~= id@);
    }
    out
}

} // verus!
