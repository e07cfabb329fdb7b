//! The stored configuration: settings and the list of launchers.

use vstd::prelude::*;
use crate::launcher::Launcher;
use crate::text::same_text;

verus! {

/// What the desktop shell keeps between runs.
#[derive(Debug, Clone)]
pub struct Config {
    pub version: String,
    pub theme: String,
    pub autostart: bool,
    pub launchers: Vec<Launcher>,
}

/// The test that a launcher has another identifier than `id`.
pub open spec fn has_other_id(id: Seq<char>) -> spec_fn(Launcher) -> bool {
    |launcher: Launcher| launcher.id@ != id
}

/// The launchers of `list` whose identifier is not `id`, in order.
pub open spec fn without_id(list: Seq<Launcher>, id: Seq<char>) -> Seq<Launcher> {
    list.filter(has_other_id(id))
}

/// Whether `index` is the first launcher of `list` with identifier `id`.
pub open spec fn is_first_with_id(list: Seq<Launcher>, id: Seq<char>, index: int) -> bool {
    &&& 0 <= index < list.len()
    &&& list[index].id@ == id
    &&& forall|j: int| 0 <= j < index ==> (#[trigger] list[j]).id@ != id
}

/// Whether no launcher of `list` has identifier `id`.
pub open spec fn has_no_id(list: Seq<Launcher>, id: Seq<char>) -> bool {
    forall|j: int| 0 <= j < list.len() ==> (#[trigger] list[j]).id@ != id
}

impl Config {
    /// Adds a launcher at the end of the list. Identifiers are not compared:
    /// a second launcher with the same identifier is kept beside the first.
    pub fn add_launcher(&mut self, launcher: Launcher)
        ensures
            final(self).launchers@ == old(self).launchers@.push(launcher),
            final(self).version == old(self).version,
            final(self).theme == old(self).theme,
            final(self).autostart == old(self).autostart,
    {
        self.launchers.push(launcher);
    }

    /// Removes every launcher with identifier `id`; the others keep their
    /// order.
    pub fn remove_launcher(&mut self, id: &str)
        ensures
            final(self).launchers@ == without_id(old(self).launchers@, id@),
            has_no_id(final(self).launchers@, id@),
            final(self).version == old(self).version,
            final(self).theme == old(self).theme,
            final(self).autostart == old(self).autostart,
    {
        let mut all: Vec<Launcher> = Vec::new();
        std::mem::swap(&mut self.launchers, &mut all);
        let ghost given = all@;
        proof {
            reveal(Seq::filter);
            assert(given.take(0) =~= Seq::empty());
        }
        for launcher in it: all
            invariant
                it.seq() == given,
                self.launchers@ == without_id(given.take(it.index() as int), id@),
                self.version == old(self).version,
                self.theme == old(self).theme,
                self.autostart == old(self).autostart,
        {
            proof {
                reveal(Seq::filter);
                let next = given.take(it.index() + 1);
                assert(next.drop_last() =~= given.take(it.index() as int));
                assert(next.last() == launcher);
            }
            if !same_text(launcher.id.as_str(), id) {
                self.launchers.push(launcher);
            }
        }
        assert(given.take(given.len() as int) =~= given);
        assert forall|j: int| 0 <= j < self.launchers@.len() implies (
        #[trigger] self.launchers@[j]).id@ != id@ by {
            given.lemma_filter_pred(has_other_id(id@), j);
        }
    }

    /// The first launcher with identifier `id`, if there is one.
    pub fn find_launcher(&self, id: &str) -> (found: Option<&Launcher>)
        ensures
            match found {
                Some(launcher) => exists|index: int|
                    #[trigger] is_first_with_id(self.launchers@, id@, index)
                        && self.launchers@[index] == *launcher,
                None => has_no_id(self.launchers@, id@),
            },
    {
        let mut i: usize = 0;
        while i < self.launchers.len()
            invariant
                0 <= i <= self.launchers.len(),
                forall|j: int| 0 <= j < i ==> (#[trigger] self.launchers@[j]).id@ != id@,
            decreases self.launchers.len() - i,
        {
            if same_text(self.launchers[i].id.as_str(), id) {
                assert(is_first_with_id(self.launchers@, id@, i as int));
                return Some(&self.launchers[i]);
            }
            i += 1;
        }
        None
    }
}

} // verus!
