//! The ideas that the player collects, loads and spends, and what can be
//! made of them.

use vstd::prelude::*;

verus! {

/// An idea that the player can hold.
#[derive(Clone, Copy, Debug, PartialEq, Eq, PartialOrd, Ord, Structural)]
pub enum Idea {
    Cube,
    Spring,
    Wheel,
    Rope,
}

impl Idea {
    /// The name of the idea as shown to the player.
    pub open spec fn spec_name(self) -> Seq<char> {
        match self {
            Idea::Cube => "Cube"@,
            Idea::Spring => "Spring"@,
            Idea::Wheel => "Wheel"@,
            Idea::Rope => "Rope"@,
        }
    }

    pub fn to_string(&self) -> (name: String)
        ensures
            name@ == self.spec_name(),
    {
        match *self {
            Idea::Cube => "Cube".to_owned(),
            Idea::Spring => "Spring".to_owned(),
            Idea::Wheel => "Wheel".to_owned(),
            Idea::Rope => "Rope".to_owned(),
        }
    }
}

/// What the player can make of ideas.
#[derive(Clone, Copy, Debug, PartialEq, Eq, Structural)]
pub enum CreationType {
    Crate,
    Launcher,
    PogoStick,
}

/// The creation that a collection of ideas makes. Only the kinds of idea
/// count, not how often or in which order they occur: a cube alone makes a
/// crate, a spring alone a pogo stick, a cube and a spring a launcher, and
/// nothing else makes anything.
pub open spec fn spec_from_ideas(ideas: Seq<Idea>) -> Option<CreationType> {
    if ideas.contains(Idea::Wheel) || ideas.contains(Idea::Rope) {
        None
    } else if ideas.contains(Idea::Cube) && ideas.contains(Idea::Spring) {
        Some(CreationType::Launcher)
    } else if ideas.contains(Idea::Cube) {
        Some(CreationType::Crate)
    } else if ideas.contains(Idea::Spring) {
        Some(CreationType::PogoStick)
    } else {
        None
    }
}

/// The ideas behind a vector of references to ideas.
pub open spec fn spec_deref_ideas(ideas: Seq<&Idea>) -> Seq<Idea> {
    Seq::new(ideas.len(), |i: int| *ideas[i])
}

impl CreationType {
    pub fn from_ideas(ideas: Vec<&Idea>) -> (creation: Option<CreationType>)
        ensures
            creation == spec_from_ideas(spec_deref_ideas(ideas@)),
    {
        let ghost all = spec_deref_ideas(ideas@);
        let mut cube = false;
        let mut spring = false;
        let mut wheel = false;
        let mut rope = false;
        let mut i: usize = 0;
        while i < ideas.len()
            invariant
                i <= ideas.len(),
                all == spec_deref_ideas(ideas@),
                cube == all.take(i as int).contains(Idea::Cube),
                spring == all.take(i as int).contains(Idea::Spring),
                wheel == all.take(i as int).contains(Idea::Wheel),
                rope == all.take(i as int).contains(Idea::Rope),
            decreases ideas.len() - i,
        {
            let idea: Idea = *ideas[i];
            proof {
                let before = all.take(i as int);
                let after = all.take(i + 1);
                assert(after == before.push(idea));
                assert(forall|x: Idea| after.contains(x) <==> before.contains(x) || x == idea) by {
                    assert forall|x: Idea| after.contains(x) implies before.contains(x) || x
                        == idea by {
                        let k = choose|k: int| 0 <= k < after.len() && after[k] == x;
                        if k < i {
                            assert(before[k] == x);
                        }
                    }
                    assert forall|x: Idea| before.contains(x) || x == idea implies after.contains(
                        x,
                    ) by {
                        if x == idea {
                            assert(after[i as int] == x);
                        } else {
                            let k = choose|k: int| 0 <= k < before.len() && before[k] == x;
                            assert(after[k] == x);
                        }
                    }
                }
            }
            match idea {
                Idea::Cube => {
                    cube = true;
                },
                Idea::Spring => {
                    spring = true;
                },
                Idea::Wheel => {
                    wheel = true;
                },
                Idea::Rope => {
                    rope = true;
                },
            }
            i += 1;
        }
        assert(all.take(i as int) == all);
        if wheel || rope {
            None
        } else if cube && spring {
            Some(CreationType::Launcher)
        } else if cube {
            Some(CreationType::Crate)
        } else if spring {
            Some(CreationType::PogoStick)
        } else {
            None
        }
    }
}

/// `ideas` without the first occurrence of `idea`.
pub open spec fn spec_without_first(ideas: Seq<Idea>, idea: Idea) -> Seq<Idea>
    decreases ideas.len(),
{
    if ideas.len() == 0 {
        ideas
    } else if ideas[0] == idea {
        ideas.drop_first()
    } else {
        seq![ideas[0]] + spec_without_first(ideas.drop_first(), idea)
    }
}

/// `available` after each idea of `spent` has been taken out of it once,
/// in order. An idea that is not there is passed over.
pub open spec fn spec_spend(available: Seq<Idea>, spent: Seq<Idea>) -> Seq<Idea>
    decreases spent.len(),
{
    if spent.len() == 0 {
        available
    } else {
        spec_spend(spec_without_first(available, spent[0]), spent.drop_first())
    }
}

/// The index before `index` in a ring of `len` places.
pub open spec fn spec_index_before(index: usize, len: nat) -> usize {
    if len == 0 {
        0
    } else if index == 0 {
        (len - 1) as usize
    } else {
        (index - 1) as usize
    }
}

/// The index after `index` in a ring of `len` places.
pub open spec fn spec_index_after(index: usize, len: nat) -> usize {
    if len == 0 || index + 1 >= len {
        0
    } else {
        (index + 1) as usize
    }
}

/// Taking out the element at the first place where `idea` stands is taking
/// out its first occurrence; where it stands nowhere, nothing is taken.
pub proof fn lemma_without_first(ideas: Seq<Idea>, idea: Idea, at: int)
    requires
        0 <= at <= ideas.len(),
        forall|k: int| 0 <= k < at ==> ideas[k] != idea,
        at < ideas.len() ==> ideas[at] == idea,
    ensures
        spec_without_first(ideas, idea) == if at < ideas.len() {
            ideas.remove(at)
        } else {
            ideas
        },
    decreases ideas.len(),
{
    if ideas.len() == 0 {
    } else if at == 0 {
        assert(ideas.remove(0) == ideas.drop_first());
    } else {
        let rest = ideas.drop_first();
        assert forall|k: int| 0 <= k < at - 1 implies rest[k] != idea by {
            assert(rest[k] == ideas[k + 1]);
        }
        lemma_without_first(rest, idea, at - 1);
        if at < ideas.len() {
            assert(seq![ideas[0]] + rest.remove(at - 1) =~= ideas.remove(at));
        } else {
            assert(seq![ideas[0]] + rest =~= ideas);
        }
    }
}

/// The ideas of the player: all that were ever collected, those at hand,
/// those loaded for a creation, and the one at hand that is selected.
pub struct PlayerIdeas {
    pub ideas: Vec<Idea>,
    pub available_ideas: Vec<Idea>,
    pub loaded_ideas: Vec<Idea>,
    pub current_index: usize,
}

/// A copy of a vector of ideas.
pub fn copy_ideas(ideas: &Vec<Idea>) -> (copy: Vec<Idea>)
    ensures
        copy@ == ideas@,
{
    let mut copy: Vec<Idea> = Vec::new();
    let mut i: usize = 0;
    while i < ideas.len()
        invariant
            i <= ideas.len(),
            copy@ == ideas@.take(i as int),
        decreases ideas.len() - i,
    {
        copy.push(ideas[i]);
        assert(ideas@.take(i + 1) == ideas@.take(i as int).push(ideas@[i as int]));
        i += 1;
    }
    assert(ideas@.take(i as int) == ideas@);
    copy
}

impl PlayerIdeas {
    /// The selected index points at an idea at hand, or is zero where none
    /// is at hand.
    pub open spec fn wf(&self) -> bool {
        if self.available_ideas@.len() == 0 {
            self.current_index == 0
        } else {
            self.current_index < self.available_ideas@.len()
        }
    }

    pub fn with_ideas(ideas: Vec<Idea>) -> (player_ideas: PlayerIdeas)
        ensures
            player_ideas.ideas@ == ideas@,
            player_ideas.available_ideas@ == ideas@,
            player_ideas.loaded_ideas@ == Seq::<Idea>::empty(),
            player_ideas.current_index == 0,
            player_ideas.wf(),
    {
        PlayerIdeas {
            available_ideas: copy_ideas(&ideas),
            ideas,
            loaded_ideas: Vec::new(),
            current_index: 0,
        }
    }

    pub fn ideas_available(&self) -> (r: bool)
        ensures
            r == (self.available_ideas@.len() > 0),
    {
        self.available_ideas.len() > 0
    }

    pub fn ideas_loaded(&self) -> (r: bool)
        ensures
            r == (self.loaded_ideas@.len() > 0),
    {
        self.loaded_ideas.len() > 0
    }

    /// Selects the next idea at hand, and the first after the last.
    pub fn scroll_forward(&mut self)
        ensures
            final(self).current_index == spec_index_after(
                old(self).current_index,
                old(self).available_ideas@.len(),
            ),
            final(self).ideas == old(self).ideas,
            final(self).available_ideas == old(self).available_ideas,
            final(self).loaded_ideas == old(self).loaded_ideas,
            final(self).wf(),
    {
        let len = self.available_ideas.len();
        if len == 0 || self.current_index >= len - 1 {
            self.current_index = 0;
        } else {
            self.current_index = self.current_index + 1;
        }
    }

    /// Selects the idea at hand before the selected one, and the last
    /// before the first.
    pub fn scroll_backward(&mut self)
        ensures
            final(self).current_index == spec_index_before(
                old(self).current_index,
                old(self).available_ideas@.len(),
            ),
            final(self).ideas == old(self).ideas,
            final(self).available_ideas == old(self).available_ideas,
            final(self).loaded_ideas == old(self).loaded_ideas,
            old(self).wf() ==> final(self).wf(),
    {
        let len = self.available_ideas.len();
        if len == 0 {
            self.current_index = 0;
        } else if self.current_index == 0 {
            self.current_index = len - 1;
        } else {
            self.current_index = self.current_index - 1;
        }
    }

    /// Puts every idea ever collected at hand again.
    pub fn recall_all_ideas(&mut self)
        ensures
            final(self).available_ideas@ == old(self).ideas@,
            final(self).ideas == old(self).ideas,
            final(self).loaded_ideas == old(self).loaded_ideas,
            final(self).current_index == old(self).current_index,
    {
        self.available_ideas = copy_ideas(&self.ideas);
    }

    /// Puts the given ideas at hand again, after those that are.
    pub fn recall_ideas(&mut self, ideas_to_recall: Vec<Idea>)
        ensures
            final(self).available_ideas@ == old(self).available_ideas@ + ideas_to_recall@,
            final(self).ideas == old(self).ideas,
            final(self).loaded_ideas == old(self).loaded_ideas,
            final(self).current_index == old(self).current_index,
    {
        let mut i: usize = 0;
        while i < ideas_to_recall.len()
            invariant
                i <= ideas_to_recall.len(),
                self.available_ideas@ == old(self).available_ideas@ + ideas_to_recall@.take(
                    i as int,
                ),
                self.ideas == old(self).ideas,
                self.loaded_ideas == old(self).loaded_ideas,
                self.current_index == old(self).current_index,
            decreases ideas_to_recall.len() - i,
        {
            self.available_ideas.push(ideas_to_recall[i]);
            assert(ideas_to_recall@.take(i + 1) == ideas_to_recall@.take(i as int).push(
                ideas_to_recall@[i as int],
            ));
            i += 1;
        }
        assert(ideas_to_recall@.take(i as int) == ideas_to_recall@);
    }

    /// Whether the selected idea can be loaded: there is one.
    pub open spec fn spec_can_load(&self) -> bool {
        self.current_index < self.available_ideas@.len()
    }

    /// Moves the selected idea from those at hand to the loaded ones and
    /// selects the idea before it. Does nothing where no idea is selected.
    pub fn load_idea(&mut self)
        ensures
            final(self).ideas == old(self).ideas,
            old(self).spec_can_load() ==> {
                &&& final(self).available_ideas@ == old(self).available_ideas@.remove(
                    old(self).current_index as int,
                )
                &&& final(self).loaded_ideas@ == old(self).loaded_ideas@.push(
                    old(self).available_ideas@[old(self).current_index as int],
                )
                &&& final(self).current_index == spec_index_before(
                    old(self).current_index,
                    (old(self).available_ideas@.len() - 1) as nat,
                )
            },
            !old(self).spec_can_load() ==> {
                &&& final(self).available_ideas == old(self).available_ideas
                &&& final(self).loaded_ideas == old(self).loaded_ideas
                &&& final(self).current_index == old(self).current_index
            },
            old(self).wf() ==> final(self).wf(),
    {
        if self.current_index < self.available_ideas.len() {
            let idea_to_load = self.available_ideas.remove(self.current_index);
            self.loaded_ideas.push(idea_to_load);
            if self.available_ideas.len() > 0 {
                self.scroll_backward();
            } else {
                self.current_index = 0;
            }
        }
    }

    /// Puts the loaded ideas back at hand, the one loaded last first.
    pub fn unload_ideas(&mut self)
        ensures
            final(self).available_ideas@ == old(self).available_ideas@ + old(
                self,
            ).loaded_ideas@.reverse(),
            final(self).loaded_ideas@ == Seq::<Idea>::empty(),
            final(self).ideas == old(self).ideas,
            final(self).current_index == old(self).current_index,
    {
        let ghost loaded = self.loaded_ideas@;
        while self.loaded_ideas.len() > 0
            invariant
                self.loaded_ideas@ == loaded.take(self.loaded_ideas@.len() as int),
                self.loaded_ideas@.len() <= loaded.len(),
                loaded == old(self).loaded_ideas@,
                self.available_ideas@ == old(self).available_ideas@ + loaded.skip(
                    self.loaded_ideas@.len() as int,
                ).reverse(),
                self.ideas == old(self).ideas,
                self.current_index == old(self).current_index,
            decreases self.loaded_ideas@.len(),
        {
            let ghost n = self.loaded_ideas@.len() as int;
            match self.loaded_ideas.pop() {
                Some(idea) => {
                    self.available_ideas.push(idea);
                    assert(loaded.skip(n - 1).reverse() =~= loaded.skip(n).reverse().push(
                        loaded[n - 1],
                    ));
                    assert(self.loaded_ideas@ == loaded.take(n - 1));
                },
                None => {},
            }
        }
        assert(loaded.skip(0) == loaded);
    }

    /// Takes each of the given ideas out of those at hand once, in order.
    /// An idea that is not at hand is passed over.
    pub fn spend_ideas(&mut self, ideas_to_spend: Vec<Idea>)
        ensures
            final(self).available_ideas@ == spec_spend(
                old(self).available_ideas@,
                ideas_to_spend@,
            ),
            final(self).ideas == old(self).ideas,
            final(self).loaded_ideas == old(self).loaded_ideas,
            final(self).current_index == old(self).current_index,
    {
        let mut i: usize = 0;
        assert(ideas_to_spend@.skip(0) == ideas_to_spend@);
        while i < ideas_to_spend.len()
            invariant
                i <= ideas_to_spend.len(),
                spec_spend(old(self).available_ideas@, ideas_to_spend@) == spec_spend(
                    self.available_ideas@,
                    ideas_to_spend@.skip(i as int),
                ),
                self.ideas == old(self).ideas,
                self.loaded_ideas == old(self).loaded_ideas,
                self.current_index == old(self).current_index,
            decreases ideas_to_spend.len() - i,
        {
            let idea = ideas_to_spend[i];
            let ghost before = self.available_ideas@;
            let mut at: usize = 0;
            while at < self.available_ideas.len() && self.available_ideas[at] != idea
                invariant
                    at <= self.available_ideas.len(),
                    self.available_ideas@ == before,
                    forall|k: int| 0 <= k < at ==> before[k] != idea,
                    self.ideas == old(self).ideas,
                    self.loaded_ideas == old(self).loaded_ideas,
                    self.current_index == old(self).current_index,
                decreases self.available_ideas.len() - at,
            {
                at += 1;
            }
            proof {
                lemma_without_first(before, idea, at as int);
                assert(ideas_to_spend@.skip(i as int)[0] == idea);
                assert(ideas_to_spend@.skip(i as int).drop_first() == ideas_to_spend@.skip(
                    i + 1,
                ));
            }
            if at < self.available_ideas.len() {
                let _ = self.available_ideas.remove(at);
            }
            i += 1;
        }
    }

    /// Collects a new idea: it is the player's from now on, and at hand.
    pub fn get_idea(&mut self, idea: Idea)
        ensures
            final(self).ideas@ == old(self).ideas@.push(idea),
            final(self).available_ideas@ == old(self).available_ideas@.push(idea),
            final(self).loaded_ideas == old(self).loaded_ideas,
            final(self).current_index == old(self).current_index,
    {
        self.ideas.push(idea);
        self.available_ideas.push(idea);
    }

    /// The name of the selected idea, if one is selected.
    pub fn get_current_idea_tag(&self) -> (tag: Option<String>)
        ensures
            match tag {
                Some(name) => self.spec_can_load() && name@
                    == self.available_ideas@[self.current_index as int].spec_name(),
                None => !self.spec_can_load(),
            },
    {
        if self.current_index < self.available_ideas.len() {
            Some(self.available_ideas[self.current_index].to_string())
        } else {
            None
        }
    }

    /// The name of the loaded idea at `index`, if there is one.
    pub fn get_loaded_idea_at(&self, index: usize) -> (tag: Option<String>)
        ensures
            match tag {
                Some(name) => index < self.loaded_ideas@.len() && name@
                    == self.loaded_ideas@[index as int].spec_name(),
                None => index >= self.loaded_ideas@.len(),
            },
    {
        if self.loaded_ideas.len() > index {
            Some(self.loaded_ideas[index].to_string())
        } else {
            None
        }
    }
}

impl Default for PlayerIdeas {
    fn default() -> (player_ideas: PlayerIdeas)
        ensures
            player_ideas.ideas@ == Seq::<Idea>::empty(),
            player_ideas.available_ideas@ == Seq::<Idea>::empty(),
            player_ideas.loaded_ideas@ == Seq::<Idea>::empty(),
            player_ideas.current_index == 0,
    {
        PlayerIdeas {
            ideas: Vec::new(),
            available_ideas: Vec::new(),
            loaded_ideas: Vec::new(),
            current_index: 0,
        }
    }
}

/// The inputs of one tick that cycle through the ideas at hand: forwards
/// first, then backwards, each where its button has just gone down.
pub fn cycle_ideas(player_ideas: &mut PlayerIdeas, forward_just_pressed: bool, backward_just_pressed: bool)
    ensures
        final(player_ideas).ideas == old(player_ideas).ideas,
        final(player_ideas).available_ideas == old(player_ideas).available_ideas,
        final(player_ideas).loaded_ideas == old(player_ideas).loaded_ideas,
        final(player_ideas).current_index == ({
            let len = old(player_ideas).available_ideas@.len();
            let after = if forward_just_pressed {
                spec_index_after(old(player_ideas).current_index, len)
            } else {
                old(player_ideas).current_index
            };
            if backward_just_pressed {
                spec_index_before(after, len)
            } else {
                after
            }
        }),
{
    if forward_just_pressed {
        player_ideas.scroll_forward();
    }
    if backward_just_pressed {
        player_ideas.scroll_backward();
    }
}

/// Puts the loaded ideas back at hand when the unload button has just gone
/// down.
pub fn unload_ideas(player_ideas: &mut PlayerIdeas, unload_just_pressed: bool)
    ensures
        final(player_ideas).ideas == old(player_ideas).ideas,
        final(player_ideas).current_index == old(player_ideas).current_index,
        unload_just_pressed ==> {
            &&& final(player_ideas).available_ideas@ == old(player_ideas).available_ideas@ + old(
                player_ideas,
            ).loaded_ideas@.reverse()
            &&& final(player_ideas).loaded_ideas@ == Seq::<Idea>::empty()
        },
        !unload_just_pressed ==> {
            &&& final(player_ideas).available_ideas == old(player_ideas).available_ideas
            &&& final(player_ideas).loaded_ideas == old(player_ideas).loaded_ideas
        },
{
    if unload_just_pressed {
        player_ideas.unload_ideas();
    }
}

/// Loads the selected idea when the load button has just gone down.
pub fn load_current_idea(player_ideas: &mut PlayerIdeas, load_just_pressed: bool)
    ensures
        final(player_ideas).ideas == old(player_ideas).ideas,
        load_just_pressed && old(player_ideas).spec_can_load() ==> {
            &&& final(player_ideas).available_ideas@ == old(player_ideas).available_ideas@.remove(
                old(player_ideas).current_index as int,
            )
            &&& final(player_ideas).loaded_ideas@ == old(player_ideas).loaded_ideas@.push(
                old(player_ideas).available_ideas@[old(player_ideas).current_index as int],
            )
            &&& final(player_ideas).current_index == spec_index_before(
                old(player_ideas).current_index,
                (old(player_ideas).available_ideas@.len() - 1) as nat,
            )
        },
        !(load_just_pressed && old(player_ideas).spec_can_load()) ==> {
            &&& final(player_ideas).available_ideas == old(player_ideas).available_ideas
            &&& final(player_ideas).loaded_ideas == old(player_ideas).loaded_ideas
            &&& final(player_ideas).current_index == old(player_ideas).current_index
        },
{
    if load_just_pressed {
        player_ideas.load_idea();
    }
}

} // verus!
