//! The cartridge shelf: the games on offer, the one that is chosen, and its
//! program image.

use vstd::prelude::*;
use vstd::string::StrSliceExecFns;

verus! {

/// A file that the host found: its path and the extension of its name.
pub struct GameFile {
    /// The path of the file.
    pub path: String,
    /// The extension of the file's name, without the dot.
    pub extension: String,
}

/// The games that were found, the chosen one and its program image.
pub struct Cartridge {
    /// The paths of the games, in the order in which they were found.
    pub game_paths: Vec<String>,
    /// The program image of the chosen game.
    pub rom: Vec<u8>,
    /// The path of the chosen game; empty while there is no game.
    pub choosen_game: String,
    /// The place of the chosen game in `game_paths`.
    pub game_index: usize,
}

/// The extension of a game file.
pub open spec fn rom_extension() -> Seq<char> {
    seq!['c', 'h', '8']
}

/// The ending that a game's name is shown without.
pub open spec fn rom_suffix() -> Seq<char> {
    seq!['.', 'c', 'h', '8']
}

/// The directory that a game's name is shown without.
pub open spec fn rom_directory() -> Seq<char> {
    seq!['a', 's', 's', 'e', 't', 's', '/']
}

/// The paths of the games among `files`, in their order.
pub open spec fn rom_paths(files: Seq<GameFile>) -> Seq<String>
    decreases files.len(),
{
    if files.len() == 0 {
        Seq::empty()
    } else if files.last().extension@ == rom_extension() {
        rom_paths(files.drop_last()).push(files.last().path)
    } else {
        rom_paths(files.drop_last())
    }
}

/// `name` without `suffix` at its end, as often as it stands there.
pub open spec fn trim_end(name: Seq<char>, suffix: Seq<char>) -> Seq<char>
    decreases name.len(),
{
    if 0 < suffix.len() <= name.len() && name.subrange(name.len() - suffix.len(), name.len() as int)
        == suffix {
        trim_end(name.subrange(0, name.len() - suffix.len()), suffix)
    } else {
        name
    }
}

/// `name` without `prefix` at its start, as often as it stands there.
pub open spec fn trim_start(name: Seq<char>, prefix: Seq<char>) -> Seq<char>
    decreases name.len(),
{
    if 0 < prefix.len() <= name.len() && name.subrange(0, prefix.len() as int) == prefix {
        trim_start(name.subrange(prefix.len() as int, name.len() as int), prefix)
    } else {
        name
    }
}

/// The name under which the game at `path` is shown.
pub open spec fn game_name(path: Seq<char>) -> Seq<char> {
    trim_start(trim_end(path, rom_suffix()), rom_directory())
}

/// Whether `extension` is that of a game file.
pub fn is_rom_extension(extension: &str) -> (r: bool)
    ensures
        r == (extension@ == rom_extension()),
{
    let r = extension.unicode_len() == 3 && extension.get_char(0) == 'c' && extension.get_char(1)
        == 'h' && extension.get_char(2) == '8';
    assert(r ==> extension@ =~= rom_extension());
    r
}

/// Whether `name` has the game ending just before `end`.
fn ends_with_suffix(name: &str, end: usize) -> (r: bool)
    requires
        end <= name@.len(),
    ensures
        r == (4 <= end && name@.subrange(end - 4, end as int) == rom_suffix()),
{
    let r = end >= 4 && name.get_char(end - 4) == '.' && name.get_char(end - 3) == 'c'
        && name.get_char(end - 2) == 'h' && name.get_char(end - 1) == '8';
    proof {
        if end >= 4 {
            let part = name@.subrange(end - 4, end as int);
            assert(part[0] == name@[end - 4] && part[1] == name@[end - 3] && part[2] == name@[end
                - 2] && part[3] == name@[end - 1]);
            assert(r ==> part =~= rom_suffix());
            assert(part == rom_suffix() ==> r);
        }
    }
    r
}

/// Whether `name` has the game directory from `start` on, before `end`.
fn starts_with_directory(name: &str, start: usize, end: usize) -> (r: bool)
    requires
        start <= end <= name@.len(),
    ensures
        r == (start + 7 <= end && name@.subrange(start as int, start + 7) == rom_directory()),
{
    let r = end - start >= 7 && name.get_char(start) == 'a' && name.get_char(start + 1) == 's'
        && name.get_char(start + 2) == 's' && name.get_char(start + 3) == 'e' && name.get_char(
        start + 4,
    ) == 't' && name.get_char(start + 5) == 's' && name.get_char(start + 6) == '/';
    proof {
        if end - start >= 7 {
            let part = name@.subrange(start as int, start + 7);
            assert(part[0] == name@[start as int] && part[1] == name@[start + 1] && part[2]
                == name@[start + 2] && part[3] == name@[start + 3] && part[4] == name@[start + 4]
                && part[5] == name@[start + 5] && part[6] == name@[start + 6]);
            assert(r ==> part =~= rom_directory());
            assert(part == rom_directory() ==> r);
        }
    }
    r
}

impl Cartridge {
    /// With games on the shelf, the chosen game is the one at `game_index`;
    /// with none, no game is chosen.
    pub open spec fn wf(&self) -> bool {
        if self.game_paths@.len() == 0 {
            self.game_index == 0 && self.choosen_game@.len() == 0
        } else {
            self.game_index < self.game_paths@.len() && self.choosen_game
                == self.game_paths@[self.game_index as int]
        }
    }

    /// An empty shelf: no games, no chosen game, no program image.
    pub fn new() -> (cartridge: Cartridge)
        ensures
            cartridge.wf(),
            cartridge.game_paths@.len() == 0,
            cartridge.rom@.len() == 0,
            cartridge.choosen_game@.len() == 0,
            cartridge.game_index == 0,
    {
        Cartridge {
            game_paths: Vec::<String>::new(),
            rom: Vec::<u8>::new(),
            choosen_game: String::new(),
            game_index: 0,
        }
    }

    /// Puts the games among `dir` on the shelf, behind those that stand
    /// there: the files whose extension is `ch8`, in their order. If the
    /// shelf was empty, the first game is chosen.
    pub fn load_game_paths(&mut self, dir: &Vec<GameFile>)
        requires
            old(self).wf(),
        ensures
            final(self).wf(),
            final(self).game_paths@ == old(self).game_paths@ + rom_paths(dir@),
            final(self).game_index == old(self).game_index,
            final(self).rom == old(self).rom,
    {
        let mut k: usize = 0;
        while k < dir.len()
            invariant
                k <= dir.len(),
                self.game_paths@ == old(self).game_paths@ + rom_paths(dir@.take(k as int)),
                self.game_index == old(self).game_index,
                self.choosen_game == old(self).choosen_game,
                self.rom == old(self).rom,
            decreases dir.len() - k,
        {
            assert(dir@.take(k + 1).drop_last() =~= dir@.take(k as int));
            if is_rom_extension(dir[k].extension.as_str()) {
                self.game_paths.push(dir[k].path.clone());
            }
            k += 1;
        }
        assert(dir@.take(k as int) =~= dir@);
        if self.game_paths.len() > 0 {
            self.choosen_game = self.game_paths[self.game_index].clone();
        }
    }

    /// The path of the chosen game: the file that the host is to read the
    /// program image from.
    pub fn chosen_path(&self) -> (path: &String)
        ensures
            *path == self.choosen_game,
    {
        &self.choosen_game
    }

    /// The name under which the chosen game is shown: its path without the
    /// ending `.ch8` and without the directory `assets/` in front, each
    /// taken away as often as it stands there.
    pub fn get_game_name(&self) -> (name: &str)
        ensures
            name@ == game_name(self.choosen_game@),
    {
        let game = self.choosen_game.as_str();
        let mut end = game.unicode_len();
        assert(game@.subrange(0, end as int) =~= game@);
        while ends_with_suffix(game, end)
            invariant
                end <= game@.len(),
                trim_end(game@, rom_suffix()) == trim_end(game@.subrange(0, end as int), rom_suffix()),
            decreases end,
        {
            assert(game@.subrange(0, end as int).subrange(end - 4, end as int) =~= game@.subrange(
                end - 4,
                end as int,
            ));
            assert(game@.subrange(0, end as int).subrange(0, end - 4) =~= game@.subrange(
                0,
                end - 4,
            ));
            end -= 4;
        }
        proof {
            let kept = game@.subrange(0, end as int);
            if 4 <= end {
                assert(kept.subrange(end - 4, end as int) =~= game@.subrange(end - 4, end as int));
            }
            assert(trim_end(kept, rom_suffix()) == kept);
        }
        let ghost kept = game@.subrange(0, end as int);
        let mut start: usize = 0;
        while starts_with_directory(game, start, end)
            invariant
                start <= end <= game@.len(),
                kept == game@.subrange(0, end as int),
                trim_start(kept, rom_directory()) == trim_start(
                    game@.subrange(start as int, end as int),
                    rom_directory(),
                ),
            decreases end - start,
        {
            assert(game@.subrange(start as int, end as int).subrange(0, 7) =~= game@.subrange(
                start as int,
                start + 7,
            ));
            assert(game@.subrange(start as int, end as int).subrange(7, end - start)
                =~= game@.subrange(start + 7, end as int));
            start += 7;
        }
        proof {
            let rest = game@.subrange(start as int, end as int);
            if start + 7 <= end {
                assert(rest.subrange(0, 7) =~= game@.subrange(start as int, start + 7));
            }
            assert(trim_start(rest, rom_directory()) == rest);
            assert(game@.subrange(0, game@.len() as int) =~= game@);
        }
        game.substring_char(start, end)
    }

    /// Chooses the game after the chosen one; after the last comes the first.
    pub fn next_game(&mut self)
        requires
            old(self).wf(),
            old(self).game_paths@.len() > 0,
        ensures
            final(self).wf(),
            final(self).game_index == if old(self).game_index + 1 == old(self).game_paths@.len() {
                0
            } else {
                old(self).game_index + 1
            },
            final(self).game_paths == old(self).game_paths,
            final(self).rom == old(self).rom,
    {
        let game_count = self.game_paths.len();
        let game_array_len = game_count - 1;
        self.game_index = if self.game_index == game_array_len {
            0
        } else {
            self.game_index + 1
        };
        let index = self.game_index;
        self.choosen_game = self.game_paths[index].clone();
    }

    /// Chooses the game before the chosen one; before the first comes the
    /// last.
    pub fn previous_game(&mut self)
        requires
            old(self).wf(),
            old(self).game_paths@.len() > 0,
        ensures
            final(self).wf(),
            final(self).game_index == if old(self).game_index == 0 {
                old(self).game_paths@.len() - 1
            } else {
                old(self).game_index - 1
            },
            final(self).game_paths == old(self).game_paths,
            final(self).rom == old(self).rom,
    {
        let game_count = self.game_paths.len();
        let game_array_len = game_count - 1;
        self.game_index = if self.game_index == 0 {
            game_array_len
        } else {
            self.game_index - 1
        };
        let index = self.game_index;
        self.choosen_game = self.game_paths[index].clone();
    }
}

} // verus!
