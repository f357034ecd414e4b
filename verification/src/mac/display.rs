//! The displays of this machine.
use vstd::prelude::*;

use super::decimal::to_decimal;
use crate::error::ErrorKind;

verus! {

/// What the system says of a display at one moment.
#[derive(Clone, Copy, Debug)]
pub struct DisplayInfo {
    /// The `CGDirectDisplayID`.
    pub id: u32,
    /// The width in pixels.
    pub width: usize,
    /// The height in pixels.
    pub height: usize,
    /// Where the display lies among the others, in whole points.
    pub origin: (i32, i32),
    pub online: bool,
    /// Whether this is the main display.
    pub primary: bool,
}

/// A display.
#[derive(Clone, Copy, Debug)]
pub struct Display(DisplayInfo);

impl View for Display {
    type V = DisplayInfo;

    closed spec fn view(&self) -> DisplayInfo {
        self.0
    }
}

impl Display {
    /// The display of which the system says `info`.
    pub fn from_info(info: DisplayInfo) -> (display: Display)
        ensures
            display@ == info,
    {
        Display(info)
    }

    /// The primary display, of which the system says `main`. There always is one.
    pub fn primary(main: DisplayInfo) -> (display: Result<Display, ErrorKind>)
        ensures
            display matches Ok(display) && display@ == main,
    {
        Ok(Display::from_info(main))
    }

    /// All displays that are online, in the order in which the system lists them;
    /// `online` is that list, or the system's error.
    pub fn all<E>(online: Result<Vec<DisplayInfo>, E>) -> (displays: Result<
        Vec<Display>,
        ErrorKind,
    >)
        ensures
            match online {
                Ok(infos) => displays matches Ok(displays) && displays@.len() == infos@.len() && (
                forall|i: int|
                    0 <= i < infos@.len() ==> (#[trigger] displays@[i])@ == infos@[i]),
                Err(_) => displays == Err::<Vec<Display>, ErrorKind>(ErrorKind::Other),
            },
    {
        match online {
            Ok(infos) => {
                let mut displays: Vec<Display> = Vec::new();
                let mut i: usize = 0;
                while i < infos.len()
                    invariant
                        i <= infos@.len(),
                        displays@.len() == i,
                        forall|k: int| 0 <= k < i ==> (#[trigger] displays@[k])@ == infos@[k],
                    decreases infos@.len() - i,
                {
                    displays.push(Display::from_info(infos[i]));
                    i = i + 1;
                }
                Ok(displays)
            },
            Err(_) => Err(ErrorKind::Other),
        }
    }

    /// The width in pixels.
    pub fn width(&self) -> (width: usize)
        ensures
            width == self@.width,
    {
        self.0.width
    }

    /// The height in pixels.
    pub fn height(&self) -> (height: usize)
        ensures
            height == self@.height,
    {
        self.0.height
    }

    /// The name of the display: its id in decimal.
    pub fn name(&self) -> (name: String)
        ensures
            name@ == super::decimal::decimal(self@.id as nat),
    {
        to_decimal(self.0.id)
    }

    /// Whether the display is online.
    pub fn is_online(&self) -> (online: bool)
        ensures
            online == self@.online,
    {
        self.0.online
    }

    /// Where the display lies among the others.
    pub fn origin(&self) -> (origin: (i32, i32))
        ensures
            origin == self@.origin,
    {
        self.0.origin
    }

    /// Whether this is the main display.
    pub fn is_primary(&self) -> (primary: bool)
        ensures
            primary == self@.primary,
    {
        self.0.primary
    }

    /// The `CGDirectDisplayID`.
    pub fn id(&self) -> (id: u32)
        ensures
            id == self@.id,
    {
        self.0.id
    }
}

} // verus!
