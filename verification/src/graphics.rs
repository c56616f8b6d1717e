//! The image table and the queue of draw commands.
//!
//! Images are named by path. The table gives every path one handle, on first
//! use, and the same handle ever after. Drawing does not touch the screen:
//! it queues draw commands. The program around the library keeps the
//! decoded image for each handle, takes the queued commands once per frame
//! and performs them.

use crate::sprite::Rect;
use vstd::prelude::*;

verus! {

/// Names one image of the table: its position in [`Graphics::paths`].
#[derive(Clone, Copy, Debug, PartialEq, Eq, Structural)]
pub struct ImageHandle(pub usize);

/// One copy of a region of an image to a region of the screen.
#[derive(Clone, Copy, Debug, PartialEq, Eq, Structural)]
pub struct Blit {
    pub image: ImageHandle,
    pub source: Rect,
    pub destination: Rect,
}

/// A request to the renderer.
#[derive(Clone, Copy, Debug, PartialEq, Eq, Structural)]
pub enum DrawCommand {
    /// Blank the back buffer.
    Clear,
    /// Copy part of an image to the back buffer.
    Copy(Blit),
    /// Show the back buffer.
    Present,
}

/// The paths of the images in use, in the order of their first use, and
/// the draw commands that wait to be performed.
pub struct Graphics {
    image_paths: Vec<String>,
    commands: Vec<DrawCommand>,
}

/// The position of `path` in `paths`, or the length of `paths` where it is
/// absent.
pub open spec fn position_of(paths: Seq<Seq<char>>, path: Seq<char>) -> int
    decreases paths.len(),
{
    if paths.len() == 0 {
        0
    } else if paths[0] == path {
        0
    } else {
        1 + position_of(paths.drop_first(), path)
    }
}

/// `position_of` finds the first occurrence.
pub proof fn lemma_position_of(paths: Seq<Seq<char>>, path: Seq<char>)
    ensures
        0 <= position_of(paths, path) <= paths.len(),
        position_of(paths, path) < paths.len() ==> paths[position_of(paths, path)] == path,
        forall|i: int| 0 <= i < position_of(paths, path) ==> paths[i] != path,
    decreases paths.len(),
{
    if paths.len() > 0 && paths[0] != path {
        let rest = paths.drop_first();
        lemma_position_of(rest, path);
        assert forall|i: int| 0 <= i < position_of(paths, path) implies paths[i] != path by {
            if i > 0 {
                assert(paths[i] == rest[i - 1]);
            }
        }
    }
}

/// The image table after `path` was asked for.
pub open spec fn loaded(paths: Seq<Seq<char>>, path: Seq<char>) -> Seq<Seq<char>> {
    if position_of(paths, path) < paths.len() {
        paths
    } else {
        paths.push(path)
    }
}

/// The handle that `path` gets from a table that holds `paths`.
pub open spec fn handle_of(paths: Seq<Seq<char>>, path: Seq<char>) -> ImageHandle {
    ImageHandle(position_of(paths, path) as usize)
}

/// Asking a table for a path it was asked for before changes nothing and
/// gives the same handle.
pub proof fn lemma_load_again(paths: Seq<Seq<char>>, path: Seq<char>)
    ensures
        loaded(loaded(paths, path), path) == loaded(paths, path),
        handle_of(loaded(paths, path), path) == handle_of(paths, path),
{
    lemma_position_of(paths, path);
    lemma_position_of(loaded(paths, path), path);
    let at = position_of(paths, path);
    if at >= paths.len() {
        let grown = paths.push(path);
        assert(grown[paths.len() as int] == path);
        let again = position_of(grown, path);
        if again < paths.len() {
            assert(grown[again] == paths[again]);
        }
    }
}

/// Asking for a path forgets nothing: every handle given before names the
/// same path after, the handle given for the path names it, and no path
/// gets two handles.
pub proof fn lemma_loaded_keeps_handles(paths: Seq<Seq<char>>, path: Seq<char>)
    requires
        forall|i: int, j: int| 0 <= i < j < paths.len() ==> paths[i] != paths[j],
        paths.len() <= usize::MAX,
    ensures
        paths.is_prefix_of(loaded(paths, path)),
        handle_of(paths, path).0 < loaded(paths, path).len(),
        loaded(paths, path)[handle_of(paths, path).0 as int] == path,
        forall|i: int, j: int|
            0 <= i < j < loaded(paths, path).len() ==> loaded(paths, path)[i] != loaded(
                paths,
                path,
            )[j],
{
    lemma_position_of(paths, path);
}

impl Graphics {
    /// The paths of the table, by handle.
    pub closed spec fn paths(&self) -> Seq<Seq<char>> {
        Seq::new(self.image_paths.len() as nat, |i: int| self.image_paths[i]@)
    }

    /// The draw commands that wait to be performed, oldest first.
    pub closed spec fn pending(&self) -> Seq<DrawCommand> {
        self.commands@
    }

    /// No path has two handles.
    pub open spec fn wf(&self) -> bool {
        forall|i: int, j: int|
            0 <= i < j < self.paths().len() ==> self.paths()[i] != self.paths()[j]
    }

    pub fn new() -> (graphics: Graphics)
        ensures
            graphics.wf(),
            graphics.paths() == Seq::<Seq<char>>::empty(),
            graphics.pending() == Seq::<DrawCommand>::empty(),
    {
        let graphics = Graphics { image_paths: Vec::new(), commands: Vec::new() };
        assert(graphics.paths() =~= Seq::<Seq<char>>::empty());
        graphics
    }

    /// The handle of the image at `filename`. A path that the table holds
    /// keeps its handle and the table stays as it is; a new path is added
    /// at the end.
    pub fn load_image(&mut self, filename: &str) -> (handle: ImageHandle)
        requires
            old(self).wf(),
        ensures
            final(self).wf(),
            handle == handle_of(old(self).paths(), filename@),
            final(self).paths() == loaded(old(self).paths(), filename@),
            handle.0 < final(self).paths().len(),
            final(self).paths()[handle.0 as int] == filename@,
            final(self).pending() == old(self).pending(),
    {
        let name = filename.to_owned();
        let mut i: usize = 0;
        proof {
            lemma_position_of(self.paths(), filename@);
        }
        while i < self.image_paths.len()
            invariant
                self.wf(),
                self.paths() == old(self).paths(),
                self.pending() == old(self).pending(),
                i <= self.image_paths.len(),
                name@ == filename@,
                forall|j: int| 0 <= j < i ==> self.paths()[j] != name@,
                position_of(self.paths(), name@) >= i,
            decreases self.image_paths.len() - i,
        {
            if self.image_paths[i] == name {
                proof {
                    lemma_position_of(self.paths(), name@);
                    assert(self.paths()[i as int] == name@);
                }
                return ImageHandle(i);
            }
            proof {
                lemma_position_of(self.paths(), name@);
                assert(self.paths()[i as int] != name@);
            }
            i += 1;
        }
        proof {
            lemma_position_of(self.paths(), name@);
        }
        self.image_paths.push(name);
        proof {
            assert(self.paths() =~= old(self).paths().push(filename@));
        }
        ImageHandle(i)
    }

    /// Queues the copy of the region `source` of `image` to the region
    /// `destination` of the screen.
    pub fn blit_surface(&mut self, image: ImageHandle, source: Rect, destination: Rect)
        ensures
            final(self).paths() == old(self).paths(),
            final(self).pending() == old(self).pending().push(
                DrawCommand::Copy(Blit { image, source, destination }),
            ),
    {
        self.commands.push(DrawCommand::Copy(Blit { image, source, destination }));
    }

    /// Queues the blanking of the back buffer.
    pub fn clear(&mut self)
        ensures
            final(self).paths() == old(self).paths(),
            final(self).pending() == old(self).pending().push(DrawCommand::Clear),
    {
        self.commands.push(DrawCommand::Clear);
    }

    /// Queues the showing of the back buffer.
    pub fn present(&mut self)
        ensures
            final(self).paths() == old(self).paths(),
            final(self).pending() == old(self).pending().push(DrawCommand::Present),
    {
        self.commands.push(DrawCommand::Present);
    }

    /// Hands out the queued draw commands, oldest first, and empties the
    /// queue.
    pub fn take_commands(&mut self) -> (commands: Vec<DrawCommand>)
        ensures
            commands@ == old(self).pending(),
            final(self).pending() == Seq::<DrawCommand>::empty(),
            final(self).paths() == old(self).paths(),
    {
        let mut commands: Vec<DrawCommand> = Vec::new();
        std::mem::swap(&mut commands, &mut self.commands);
        commands
    }

    /// How many images the table holds.
    pub fn image_count(&self) -> (count: usize)
        ensures
            count == self.paths().len(),
    {
        self.image_paths.len()
    }

    /// The path of the image that `handle` names.
    pub fn image_path(&self, handle: ImageHandle) -> (path: Option<String>)
        ensures
            match path {
                Some(p) => handle.0 < self.paths().len() && p@ == self.paths()[handle.0 as int],
                None => handle.0 >= self.paths().len(),
            },
    {
        if handle.0 < self.image_paths.len() {
            Some(self.image_paths[handle.0].clone())
        } else {
            None
        }
    }
}

} // verus!
