use vstd::prelude::*;

use crate::fill_mode::{FillMode, MAX_FILL_MODE};
use crate::scheduler::Wallpaper;
use crate::state::{started, RotationConfig};
use crate::text::{decimal, push_decimal};

verus! {

/// The request that applying `path` makes of the desktop shell; `None` when
/// the fill mode's ordinal names no mode, so that the shell is never called.
pub fn wallpaper_request(path: String, screen: u32, fill_mode: u8) -> (r: Option<Wallpaper>)
    ensures
        r is Some <==> fill_mode <= MAX_FILL_MODE,
        r matches Some(w) ==> w.path@ == path@ && w.screen == screen && w.fill_mode.ordinal()
            == fill_mode,
{
    match FillMode::from_u8(fill_mode) {
        Some(m) => Some(Wallpaper { path, screen, fill_mode: m }),
        None => None,
    }
}

/// Starts rotating through `directory`. An ordinal that names no fill mode is
/// refused and the configuration is left as it was.
pub fn start_directory_loop(
    config: &mut RotationConfig,
    directory: String,
    screen: u32,
    fill_mode: u8,
    period_secs: u64,
) -> (r: bool)
    ensures
        r <==> fill_mode <= MAX_FILL_MODE,
        r ==> final(config)@ == started(
            directory@,
            screen,
            final(config)@.fill_mode,
            period_secs,
        ) && final(config)@.fill_mode.ordinal() == fill_mode,
        !r ==> final(config)@ == old(config)@,
{
    match FillMode::from_u8(fill_mode) {
        Some(m) => config.start_rotation(directory, screen, m, period_secs),
        None => false,
    }
}

/// The text of the screen listing: one `id: N` line per screen.
pub open spec fn screens_text(ids: Seq<u16>) -> Seq<char>
    decreases ids.len(),
{
    if ids.len() == 0 {
        Seq::empty()
    } else {
        screens_text(ids.drop_last()) + seq!['i', 'd', ':', ' '] + decimal(ids.last() as nat)
            + seq!['\n']
    }
}

/// Renders the screens that the desktop shell reported.
pub fn render_screens(ids: &Vec<u16>) -> (r: String)
    ensures
        r@ == screens_text(ids@),
{
    let mut out = String::new();
    let mut i: usize = 0;
    while i < ids.len()
        invariant
            i <= ids.len(),
            out@ == screens_text(ids@.subrange(0, i as int)),
        decreases ids.len() - i,
    {
        let ghost before = out@;
        proof {
            reveal_strlit("id: ");
            reveal_strlit("\n");
        }
        out.append("id: ");
        push_decimal(&mut out, ids[i] as u64);
        out.append("\n");
        assert(ids@.subrange(0, i + 1).drop_last() =~= ids@.subrange(0, i as int));
        assert(out@ =~= before + seq!['i', 'd', ':', ' '] + decimal(ids@[i as int] as nat) + seq![
            '\n',
        ]);
        i = i + 1;
    }
    assert(ids@.subrange(0, ids.len() as int) =~= ids@);
    out
}

/// The answer to a screen query: the listing, or the failure as text.
pub fn screens_reply(listed: &Result<Vec<u16>, String>) -> (r: String)
    ensures
        r@ == match listed {
            Ok(ids) => screens_text(ids@),
            Err(e) => "Error getting screens: "@ + e@,
        },
{
    match listed {
        Ok(ids) => render_screens(ids),
        Err(e) => {
            let mut out = String::from_str("Error getting screens: ");
            out.append(e.as_str());
            out
        },
    }
}

/// The answer to a request to generate and apply an image: the image's path,
/// or the failure as text. `applied` is read only when an image was generated.
pub fn generation_reply(
    generated: &Result<String, String>,
    applied: &Result<(), String>,
) -> (r: String)
    ensures
        r@ == match generated {
            Err(e) => "Error generating image: "@ + e@,
            Ok(path) => match applied {
                Ok(_) => path@,
                Err(e) => "Error setting wallpaper: "@ + e@,
            },
        },
{
    match generated {
        Err(e) => {
            let mut out = String::from_str("Error generating image: ");
            out.append(e.as_str());
            out
        },
        Ok(path) => match applied {
            Ok(_) => path.clone(),
            Err(e) => {
                let mut out = String::from_str("Error setting wallpaper: ");
                out.append(e.as_str());
                out
            },
        },
    }
}

} // verus!
