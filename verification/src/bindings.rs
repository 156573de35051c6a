use vstd::prelude::*;
use mlua::{Function, Lua};
use crate::color::Rgb;
use crate::shared::{in_frame, SharedScreen};

verus! {

/// `mlua::Error::RuntimeError`: the engine's runtime error that carries
/// `message`, to be raised in the script that made the call.
#[verifier::external_body]
fn script_fault(message: String) -> mlua::Error {
    mlua::Error::RuntimeError(message)
}

/// The drawing call `cls(color)`: sets every cell to `color`. Never fails.
pub(crate) fn clear(screen: &SharedScreen, color: u8) -> (r: Result<(), mlua::Error>)
    ensures
        r is Ok,
{
    screen.clear(color);
    Ok(())
}

/// The drawing call `pget(x, y)`: the palette index at `(x, y)`. Raises a
/// script error exactly when the coordinate is outside the screen.
pub(crate) fn get_pixel(screen: &SharedScreen, x: usize, y: usize) -> (r: Result<u8, mlua::Error>)
    ensures
        r is Ok <==> in_frame(x, y),
{
    match screen.get_pixel(x, y) {
        Ok(color) => Ok(color),
        Err(report) => Err(script_fault(report.message())),
    }
}

/// The drawing call `pset(x, y, color)`: writes one cell. Raises a script
/// error, without writing, exactly when the coordinate is outside the
/// screen.
pub(crate) fn set_pixel(screen: &SharedScreen, x: usize, y: usize, color: u8) -> (r: Result<
    (),
    mlua::Error,
>)
    ensures
        r is Ok <==> in_frame(x, y),
{
    match screen.set_pixel(x, y, color) {
        Ok(()) => Ok(()),
        Err(report) => Err(script_fault(report.message())),
    }
}

/// The drawing call `pal(index, r, g, b)`: overwrites one palette entry.
/// Never fails.
pub(crate) fn set_palette(screen: &SharedScreen, index: u8, r: u8, g: u8, b: u8) -> (res: Result<
    (),
    mlua::Error,
>)
    ensures
        res is Ok,
{
    screen.set_palette(index, Rgb(r, g, b));
    Ok(())
}

/// `mlua::Lua::create_function` on a closure that takes one palette index
/// and calls [`clear`] on `screen`.
#[verifier::external_body]
pub(crate) fn bind_clear<'lua>(lua: &'lua Lua, screen: SharedScreen) -> Result<Function<'lua>, mlua::Error> {
    lua.create_function(move |_, color: u8| clear(&screen, color))
}

/// `mlua::Lua::create_function` on a closure that takes a coordinate and
/// calls [`get_pixel`] on `screen`.
#[verifier::external_body]
pub(crate) fn bind_get_pixel<'lua>(lua: &'lua Lua, screen: SharedScreen) -> Result<
    Function<'lua>,
    mlua::Error,
> {
    lua.create_function(move |_, (x, y): (usize, usize)| get_pixel(&screen, x, y))
}

/// `mlua::Lua::create_function` on a closure that takes a coordinate and a
/// palette index and calls [`set_pixel`] on `screen`.
#[verifier::external_body]
pub(crate) fn bind_set_pixel<'lua>(lua: &'lua Lua, screen: SharedScreen) -> Result<
    Function<'lua>,
    mlua::Error,
> {
    lua.create_function(move |_, (x, y, color): (usize, usize, u8)| set_pixel(&screen, x, y, color))
}

/// `mlua::Lua::create_function` on a closure that takes a palette index
/// and three colour components and calls [`set_palette`] on `screen`.
#[verifier::external_body]
pub(crate) fn bind_set_palette<'lua>(lua: &'lua Lua, screen: SharedScreen) -> Result<
    Function<'lua>,
    mlua::Error,
> {
    lua.create_function(
        move |_, (index, r, g, b): (u8, u8, u8, u8)| set_palette(&screen, index, r, g, b),
    )
}

} // verus!
