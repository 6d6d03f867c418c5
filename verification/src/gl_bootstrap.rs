//! The choices made while a context is set up.
//!
//! Talking to the window system is the caller's business. What is decided
//! here is which of the configurations on offer to take, and which kinds of
//! context to try, in which order.
use vstd::prelude::*;

verus! {

/// What matters of a configuration when one is to be picked.
#[derive(Clone, Copy, Debug, PartialEq, Eq)]
pub struct ConfigTraits {
    /// Whether the configuration supports transparency, where that is known.
    pub transparency: Option<bool>,
    /// The number of samples per pixel.
    pub samples: u8,
}

/// A kind of context to ask for.
#[derive(Clone, Copy, Debug, PartialEq, Eq)]
pub enum ContextChoice {
    /// What the platform makes by default.
    Default,
    /// OpenGL ES, of any version.
    Gles,
    /// OpenGL of this version.
    OpenGl { major: u8, minor: u8 },
}

impl ConfigTraits {
    /// The configuration is known to support transparency.
    pub open spec fn transparent(self) -> bool {
        self.transparency == Some(true)
    }

    /// For a window, `self` is taken in the place of `current`, the best
    /// seen before it, if it brings transparency where `current` has none,
    /// or if it has more samples.
    pub open spec fn spec_replaces(self, current: ConfigTraits) -> bool {
        (self.transparent() && !current.transparent()) || self.samples > current.samples
    }

    /// Off screen, `current`, the best seen before, stays only while it has
    /// more samples than `self`: of two with as many the later one is taken.
    pub open spec fn spec_replaces_off_screen(self, current: ConfigTraits) -> bool {
        !(current.samples > self.samples)
    }

    /// Whether, for a window, this configuration is taken in the place of
    /// `current`.
    pub fn replaces(&self, current: &ConfigTraits) -> (taken: bool)
        ensures
            taken == self.spec_replaces(*current),
    {
        let brings_transparency = is_true(self.transparency) && !is_true(current.transparency);
        brings_transparency || self.samples > current.samples
    }

    /// Whether, off screen, this configuration is taken in the place of
    /// `current`.
    pub fn replaces_off_screen(&self, current: &ConfigTraits) -> (taken: bool)
        ensures
            taken == self.spec_replaces_off_screen(*current),
    {
        !(current.samples > self.samples)
    }
}

fn is_true(flag: Option<bool>) -> (known: bool)
    ensures
        known == (flag == Some(true)),
{
    match flag {
        Some(value) => value,
        None => false,
    }
}

/// Which of the configurations on offer is taken for a window, by its
/// place in the list: the first is the best to begin with, and each one
/// after it takes the place of the best so far where it replaces it.
pub open spec fn spec_pick_window(configs: Seq<ConfigTraits>) -> int
    decreases configs.len(),
{
    if configs.len() <= 1 {
        0
    } else {
        let best = spec_pick_window(configs.drop_last());
        if configs.last().spec_replaces(configs[best]) {
            configs.len() - 1
        } else {
            best
        }
    }
}

/// Which of the configurations on offer is taken off screen, by its place
/// in the list.
pub open spec fn spec_pick_off_screen(configs: Seq<ConfigTraits>) -> int
    decreases configs.len(),
{
    if configs.len() <= 1 {
        0
    } else {
        let best = spec_pick_off_screen(configs.drop_last());
        if configs.last().spec_replaces_off_screen(configs[best]) {
            configs.len() - 1
        } else {
            best
        }
    }
}

/// Picks the configuration for a window out of those on offer; none where
/// none is on offer. No configuration after the one taken replaces it:
/// none of them has more samples, and none brings transparency that the one
/// taken lacks.
pub fn pick_window(configs: &Vec<ConfigTraits>) -> (taken: Option<usize>)
    ensures
        match taken {
            Some(best) => {
                &&& best < configs.len()
                &&& best == spec_pick_window(configs@)
                &&& forall|later: int|
                    best < later < configs.len() ==> !(#[trigger] configs[later]).spec_replaces(
                        configs[best as int],
                    )
            },
            None => configs.len() == 0,
        },
{
    if configs.len() == 0 {
        return None;
    }
    let mut best: usize = 0;
    let mut seen: usize = 1;
    assert(configs@.take(1).len() == 1);
    while seen < configs.len()
        invariant
            1 <= seen <= configs.len(),
            best < seen,
            best == spec_pick_window(configs@.take(seen as int)),
            forall|later: int|
                best < later < seen ==> !(#[trigger] configs[later]).spec_replaces(
                    configs[best as int],
                ),
        decreases configs.len() - seen,
    {
        proof {
            let longer = configs@.take(seen + 1);
            assert(longer.drop_last() =~= configs@.take(seen as int));
            assert(longer.last() == configs[seen as int]);
        }
        if configs[seen].replaces(&configs[best]) {
            best = seen;
        }
        seen = seen + 1;
    }
    assert(configs@.take(seen as int) =~= configs@);
    Some(best)
}

/// Picks the configuration to use off screen out of those on offer; none
/// where none is on offer. The one taken has the most samples, and is the
/// last of those that have as many.
pub fn pick_off_screen(configs: &Vec<ConfigTraits>) -> (taken: Option<usize>)
    ensures
        match taken {
            Some(best) => {
                &&& best < configs.len()
                &&& best == spec_pick_off_screen(configs@)
                &&& forall|other: int|
                    0 <= other < configs.len() ==> (#[trigger] configs[other]).samples
                        <= configs[best as int].samples
                &&& forall|later: int|
                    best < later < configs.len() ==> (#[trigger] configs[later]).samples
                        < configs[best as int].samples
            },
            None => configs.len() == 0,
        },
{
    if configs.len() == 0 {
        return None;
    }
    let mut best: usize = 0;
    let mut seen: usize = 1;
    assert(configs@.take(1).len() == 1);
    while seen < configs.len()
        invariant
            1 <= seen <= configs.len(),
            best < seen,
            best == spec_pick_off_screen(configs@.take(seen as int)),
            forall|other: int|
                0 <= other < seen ==> (#[trigger] configs[other]).samples
                    <= configs[best as int].samples,
            forall|later: int|
                best < later < seen ==> (#[trigger] configs[later]).samples
                    < configs[best as int].samples,
        decreases configs.len() - seen,
    {
        proof {
            let longer = configs@.take(seen + 1);
            assert(longer.drop_last() =~= configs@.take(seen as int));
            assert(longer.last() == configs[seen as int]);
        }
        if configs[seen].replaces_off_screen(&configs[best]) {
            best = seen;
        }
        seen = seen + 1;
    }
    assert(configs@.take(seen as int) =~= configs@);
    Some(best)
}

/// The kinds of context to try, the first that can be made being taken: the
/// platform's default, then OpenGL ES, and for a window, where old devices
/// may offer neither, OpenGL 2.1.
pub open spec fn spec_context_choices(windowed: bool) -> Seq<ContextChoice> {
    if windowed {
        seq![
            ContextChoice::Default,
            ContextChoice::Gles,
            ContextChoice::OpenGl { major: 2, minor: 1 },
        ]
    } else {
        seq![ContextChoice::Default, ContextChoice::Gles]
    }
}

/// The kinds of context to try, in order.
pub fn context_choices(windowed: bool) -> (choices: Vec<ContextChoice>)
    ensures
        choices@ == spec_context_choices(windowed),
{
    if windowed {
        vec![
            ContextChoice::Default,
            ContextChoice::Gles,
            ContextChoice::OpenGl { major: 2, minor: 1 },
        ]
    } else {
        vec![ContextChoice::Default, ContextChoice::Gles]
    }
}

} // verus!
