use vstd::prelude::*;

use crate::fill_mode::FillMode;
use crate::state::{is_rotating, RotationConfig};
use crate::validate::{accepted_images, filter_images, views};

verus! {

/// Seconds to wait while rotation is off or has no directory.
pub const IDLE_SECS: u64 = 5;

/// Seconds to wait after a listing without images.
pub const NO_IMAGES_SECS: u64 = 10;

/// An image to put on a screen.
#[derive(Debug)]
pub struct Wallpaper {
    pub path: String,
    pub screen: u32,
    pub fill_mode: FillMode,
}

/// What the scheduler asks for after a directory was listed.
#[derive(Debug)]
pub enum Action {
    /// Nothing to apply: wait this long and look again.
    NoImages { secs: u64 },
    /// Apply this image, then wait this long.
    Apply { wallpaper: Wallpaper, secs: u64 },
}

/// The position that a cycle applies, given the cursor and the number of images.
pub open spec fn cycle_index(cursor: nat, n: nat) -> nat {
    if cursor >= n {
        0
    } else {
        cursor
    }
}

/// The cursor after `k` cycles over `n` images, from a fresh start.
pub open spec fn cursor_after(n: nat, k: nat) -> nat
    decreases k,
{
    if k == 0 {
        0
    } else {
        cycle_index(cursor_after(n, (k - 1) as nat), n) + 1
    }
}

/// The scheduler's private state as plain values.
pub struct SchedulerView {
    pub cursor: nat,
    pub directory: Option<Seq<char>>,
}

/// The rotation's private position in the last listing, and the directory
/// that listing came from.
pub struct Scheduler {
    cursor: usize,
    directory: Option<String>,
}

impl View for Scheduler {
    type V = SchedulerView;

    closed spec fn view(&self) -> SchedulerView {
        SchedulerView {
            cursor: self.cursor as nat,
            directory: match self.directory {
                Some(d) => Some(d@),
                None => None,
            },
        }
    }
}

impl Scheduler {
    pub fn new() -> (r: Scheduler)
        ensures
            r@.cursor == 0,
            r@.directory is None,
    {
        Scheduler { cursor: 0, directory: None }
    }

    pub fn cursor(&self) -> (r: usize)
        ensures
            r == self@.cursor,
    {
        self.cursor
    }

    /// Decides, from a snapshot of the configuration, whether to list a
    /// directory. Without one to list the scheduler idles and starts over; a
    /// directory other than the last one is also started from its first image.
    pub fn decide(&mut self, config: &RotationConfig) -> (r: Option<String>)
        ensures
            match r {
                Some(d) => {
                    &&& is_rotating(config@)
                    &&& config@.directory == Some(d@)
                    &&& final(self)@.directory == Some(d@)
                    &&& final(self)@.cursor == if old(self)@.directory == Some(d@) {
                        old(self)@.cursor
                    } else {
                        0
                    }
                },
                None => {
                    &&& !is_rotating(config@)
                    &&& final(self)@.cursor == 0
                    &&& final(self)@.directory == old(self)@.directory
                },
            },
    {
        if !config.is_rotating() {
            self.cursor = 0;
            return None;
        }
        match config.directory() {
            Some(d) => {
                let same = match &self.directory {
                    Some(last) => *last == d,
                    None => false,
                };
                if !same {
                    self.cursor = 0;
                }
                self.directory = Some(d.clone());
                Some(d)
            },
            None => {
                self.cursor = 0;
                None
            },
        }
    }

    /// Acts on a fresh listing of the configured directory: applies the image
    /// under the cursor, wrapping to the first, and moves the cursor on.
    pub fn act(&mut self, config: &RotationConfig, entries: &Vec<String>) -> (r: Action)
        ensures
            ({
                let images = accepted_images(views(entries@));
                let i = cycle_index(old(self)@.cursor, images.len());
                &&& final(self)@.directory == old(self)@.directory
                &&& if images.len() == 0 {
                    r == Action::NoImages { secs: NO_IMAGES_SECS } && final(self)@.cursor == 0
                } else {
                    &&& r matches Action::Apply { wallpaper, secs }
                    &&& wallpaper.path@ == images[i as int]
                    &&& wallpaper.screen == config@.screen
                    &&& wallpaper.fill_mode == config@.fill_mode
                    &&& secs == config@.period_secs
                    &&& final(self)@.cursor == i + 1
                }
            }),
    {
        let images = filter_images(entries);
        proof {
            assert(views(images@).len() == images@.len());
        }
        if images.len() == 0 {
            self.cursor = 0;
            return Action::NoImages { secs: NO_IMAGES_SECS };
        }
        if self.cursor >= images.len() {
            self.cursor = 0;
        }
        let path = images[self.cursor].clone();
        assert(views(images@)[self.cursor as int] == images@[self.cursor as int]@);
        self.cursor = self.cursor + 1;
        Action::Apply {
            wallpaper: Wallpaper {
                path,
                screen: config.screen(),
                fill_mode: config.fill_mode(),
            },
            secs: config.period_secs(),
        }
    }
}

/// From a fresh start over `n` images, cycle `k` applies image `k mod n`: the
/// first `n` cycles visit the images in listing order and cycle `n` wraps to
/// the first.
pub proof fn lemma_rotation_order(n: nat, k: nat)
    requires
        n > 0,
    ensures
        cycle_index(cursor_after(n, k), n) == k % n,
        k < n ==> cycle_index(cursor_after(n, k), n) == k,
        k == n ==> cycle_index(cursor_after(n, k), n) == 0,
    decreases k,
{
    if k < n {
        vstd::arithmetic::div_mod::lemma_small_mod(k, n);
    }
    if k == n {
        vstd::arithmetic::div_mod::lemma_mod_self_0(n as int);
    }
    if k == 0 {
        assert(0nat % n == 0) by (nonlinear_arith)
            requires
                n > 0,
        ;
    } else {
        let j = (k - 1) as nat;
        lemma_rotation_order(n, j);
        let m = j % n;
        assert(m < n) by (nonlinear_arith)
            requires
                n > 0,
                m == j % n,
        ;
        assert(cursor_after(n, k) == m + 1);
        if m + 1 >= n {
            assert(k % n == 0) by (nonlinear_arith)
                requires
                    n > 0,
                    m == j % n,
                    m + 1 == n,
                    k == j + 1,
            ;
        } else {
            assert(k % n == m + 1) by (nonlinear_arith)
                requires
                    n > 0,
                    m == j % n,
                    m + 1 < n,
                    k == j + 1,
            ;
        }
    }
}

} // verus!
