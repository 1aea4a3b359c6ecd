//! Background images from which each cell of the grid draws one at random.

use vstd::prelude::*;
use rand::Rng;

verus! {

/// Relies on rand's `thread_rng` and `Rng::gen_range`: `gen_range(0..len)`
/// returns a value of the half-open range and panics when it is empty.
#[verifier::external_body]
fn random_index(len: usize) -> (r: usize)
    requires
        len > 0,
    ensures
        r < len,
{
    rand::thread_rng().gen_range(0..len)
}

/// The image paths that cells may use as their background.
#[derive(Clone, Debug)]
pub struct InventoryBackgroundTiles {
    background_icons_small: Vec<String>,
}

impl InventoryBackgroundTiles {
    /// The image paths, in order.
    pub closed spec fn tiles(&self) -> Seq<String> {
        self.background_icons_small@
    }

    /// There is at least one image to draw from.
    pub open spec fn wf(&self) -> bool {
        self.tiles().len() > 0
    }

    /// The number of images.
    pub fn len(&self) -> (r: usize)
        ensures
            r == self.tiles().len(),
    {
        self.background_icons_small.len()
    }

    /// The image at `index`.
    pub fn tile(&self, index: usize) -> (r: &String)
        requires
            index < self.tiles().len(),
        ensures
            *r == self.tiles()[index as int],
    {
        &self.background_icons_small[index]
    }

    /// One of the images, drawn at random.
    pub fn get_random_tile_small(&self) -> (r: &String)
        requires
            self.wf(),
        ensures
            exists|i: int| 0 <= i < self.tiles().len() && *r == self.tiles()[i],
    {
        let i = random_index(self.background_icons_small.len());
        self.tile(i)
    }
}

impl Default for InventoryBackgroundTiles {
    /// The three small grunge tiles.
    fn default() -> (r: Self)
        ensures
            r.wf(),
            r.tiles().len() == 3,
            r.tiles()[0]@ == "Apocalypse/HUD/Sprites/HUD/SPR_Background_Square_Tile_Grunge_Sml_01.png"@,
            r.tiles()[1]@ == "Apocalypse/HUD/Sprites/HUD/SPR_Background_Square_Tile_Grunge_Sml_02.png"@,
            r.tiles()[2]@
                == "Apocalypse/HUD/Sprites/HUD/SPR_Background_Square_Tile_Grunge_Sml_LeftRight.png"@,
    {
        let mut background_icons_small: Vec<String> = Vec::new();
        background_icons_small.push(
            "Apocalypse/HUD/Sprites/HUD/SPR_Background_Square_Tile_Grunge_Sml_01.png".to_owned(),
        );
        background_icons_small.push(
            "Apocalypse/HUD/Sprites/HUD/SPR_Background_Square_Tile_Grunge_Sml_02.png".to_owned(),
        );
        background_icons_small.push(
            "Apocalypse/HUD/Sprites/HUD/SPR_Background_Square_Tile_Grunge_Sml_LeftRight.png".to_owned(),
        );
        InventoryBackgroundTiles { background_icons_small }
    }
}

} // verus!
