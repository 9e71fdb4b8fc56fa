use vstd::prelude::*;

verus! {

/// What the renderer draws.
#[derive(Clone, Copy, PartialEq, Eq, Structural, Debug)]
pub enum Mode {
    Julia2D,
    IFS2D,
    IFS3D,
}

/// `(v + 1) % n` as Rust computes it on `i32`: the remainder takes the sign
/// of the dividend.
pub open spec fn cycled(v: i32, n: int) -> i32 {
    let a = v + 1;
    (if a >= 0 {
        a % n
    } else {
        -((-a) % n)
    }) as i32
}

/// Advances a signed cycle counter modulo `n`.
fn cycle_i32(v: i32, n: i32) -> (r: i32)
    requires
        v < i32::MAX,
        n > 0,
    ensures
        r == cycled(v, n as int),
{
    (v + 1) % n
}

} // verus!

verus! {

/// The keys the viewer reacts to once per press.
#[derive(Clone, Copy, PartialEq, Eq, Structural, Debug)]
pub enum Key {
    /// New random palette.
    P,
    /// Next fractal set.
    S,
    /// Next symmetry mode.
    X,
    /// Toggle the secret ingredient.
    Z,
    /// Next preset constant.
    N,
    /// Next background.
    B,
    /// Clear view and shadow buffers.
    C,
    /// Clear the view buffer.
    V,
    /// Toggle lightness.
    L,
    /// Next colour correction ("whiter shade of pale").
    W,
    /// Random view direction.
    R,
    /// Toggle the animation of the constant.
    Space,
}

/// Outside work that a key press asks of the caller.
#[derive(Clone, Copy, PartialEq, Eq, Structural, Debug)]
pub enum KeyAction {
    Nothing,
    /// Draw a new random palette.
    RandomizePalette,
    /// Draw the secret ingredient's shape and size.
    RandomizeSecret,
    /// Draw a random constant for the last preset.
    RandomizeCenter,
    /// Draw a random camera; `center` also asks for a random constant.
    RandomizeView { center: bool },
}

/// Where the fractal's constant comes from this frame.
#[derive(Clone, Copy, PartialEq, Eq, Structural, Debug)]
pub enum CenterSource {
    /// Preset number `i`.
    Preset(usize),
    /// The caller's own constant.
    Custom,
    /// The animated constant.
    Animated,
}

/// Number of preset constants.
pub const PRESET_COUNT: usize = 9;
/// Number of values each cycling setting runs through.
pub const SET_COUNT: i32 = 8;
pub const X_MODE_COUNT: i32 = 7;
pub const PRESET_CHOICES: usize = 10;
pub const BACKGROUND_COUNT: usize = 5;
pub const LIGHTNESS_COUNT: i32 = 2;
pub const WHITERSHADE_COUNT: i32 = 3;

/// The integer and boolean settings of the fractal: which set and symmetry
/// mode, where the constant comes from, background and colour correction.
#[derive(Clone, Copy, PartialEq, Eq, Structural, Debug)]
pub struct IfsControl {
    pub freeze_sets: bool,
    pub set2d_variant: Option<i32>,
    pub set3d_index: Option<i32>,
    pub x_mode: i32,
    pub freeze_c: bool,
    pub preset_idx: usize,
    pub use_presets: bool,
    pub secret_ingredient: bool,
    pub secret_square: bool,
    pub secret_extra_coord: bool,
    pub background_mode: usize,
    pub whitershade: i32,
    pub lightness: i32,
}

/// The default settings.
pub open spec fn default_control() -> IfsControl {
    IfsControl {
        freeze_sets: false,
        set2d_variant: None,
        set3d_index: Some(3),
        x_mode: 0,
        freeze_c: true,
        preset_idx: 9,
        use_presets: true,
        secret_ingredient: false,
        secret_square: false,
        secret_extra_coord: false,
        background_mode: 0,
        whitershade: 0,
        lightness: 0,
    }
}

impl Default for IfsControl {
    fn default() -> (s: Self)
        ensures
            s == default_control(),
    {
        IfsControl {
            freeze_sets: false,
            set2d_variant: None,
            set3d_index: Some(3),
            x_mode: 0,
            freeze_c: true,
            preset_idx: 9,
            use_presets: true,
            secret_ingredient: false,
            secret_square: false,
            secret_extra_coord: false,
            background_mode: 0,
            whitershade: 0,
            lightness: 0,
        }
    }
}

/// The source of the constant under settings `c`.
pub open spec fn spec_center_source(c: IfsControl) -> CenterSource {
    if !c.freeze_c {
        CenterSource::Animated
    } else if c.use_presets && c.preset_idx < PRESET_COUNT {
        CenterSource::Preset(c.preset_idx)
    } else {
        CenterSource::Custom
    }
}

impl IfsControl {
    /// The entry of a `count`-entry background colour table that the
    /// background mode selects: the mode itself, capped at the last entry.
    pub fn background_index(&self, count: usize) -> (i: usize)
        requires
            count > 0,
        ensures
            i == if self.background_mode < count { self.background_mode } else { (count - 1) as usize },
    {
        if self.background_mode < count {
            self.background_mode
        } else {
            count - 1
        }
    }

    /// The bottom plane is drawn only with background mode 0.
    pub fn draws_bottom_plane(&self) -> (b: bool)
        ensures
            b == (self.background_mode == 0),
    {
        self.background_mode == 0
    }

    /// The mirrored point (the walker reflected through the origin) is drawn
    /// only in symmetry modes up to 2.
    pub fn draws_mirrored_root(&self) -> (b: bool)
        ensures
            b == (self.x_mode <= 2),
    {
        self.x_mode <= 2
    }

    /// Where the constant comes from: animated unless frozen, else the
    /// selected preset when presets are on and it exists, else the caller's own.
    pub fn center_source(&self) -> (s: CenterSource)
        ensures
            s == spec_center_source(*self),
    {
        if self.freeze_c {
            if self.use_presets && self.preset_idx < PRESET_COUNT {
                CenterSource::Preset(self.preset_idx)
            } else {
                CenterSource::Custom
            }
        } else {
            CenterSource::Animated
        }
    }
}

/// The viewer's state between frames: the settings and which buffers must
/// be cleared before the next frame.
#[derive(Clone, Copy, PartialEq, Eq, Structural, Debug)]
pub struct Session {
    pub ifs: IfsControl,
    pub view_dirty: bool,
    pub shadow_dirty: bool,
    pub show_shadows: bool,
}

/// The session the viewer starts with: set D, first preset, frozen
/// constant, everything to be cleared, shadows on.
pub open spec fn initial_session() -> Session {
    Session {
        ifs: IfsControl { set3d_index: Some(3), preset_idx: 0, freeze_c: true, ..default_control() },
        view_dirty: true,
        shadow_dirty: true,
        show_shadows: true,
    }
}

/// A press of `key` cannot overflow a counter of `s`.
pub open spec fn key_ok(s: Session, key: Key) -> bool {
    match key {
        Key::S => s.ifs.set3d_index.unwrap_or(0) < i32::MAX,
        Key::X => s.ifs.x_mode < i32::MAX,
        Key::N => s.ifs.preset_idx < usize::MAX,
        Key::B => s.ifs.background_mode < usize::MAX,
        Key::L => s.ifs.lightness < i32::MAX,
        Key::W => s.ifs.whitershade < i32::MAX,
        _ => true,
    }
}

/// `s` with the view marked for clearing, and the shadows too when `both`.
pub open spec fn dirtied(s: Session, both: bool) -> Session {
    Session { view_dirty: true, shadow_dirty: s.shadow_dirty || both, ..s }
}

/// The session after a press of `key` and the outside work it asks for.
pub open spec fn pressed(s: Session, key: Key) -> (Session, KeyAction) {
    let c = s.ifs;
    match key {
        Key::P => (dirtied(s, false), KeyAction::RandomizePalette),
        Key::S => (
            dirtied(Session { ifs: IfsControl { set3d_index: Some(cycled(c.set3d_index.unwrap_or(0), SET_COUNT as int)), ..c }, ..s }, true),
            KeyAction::Nothing,
        ),
        Key::X => (
            dirtied(Session { ifs: IfsControl { x_mode: cycled(c.x_mode, X_MODE_COUNT as int), ..c }, ..s }, true),
            KeyAction::Nothing,
        ),
        Key::Z => (
            dirtied(Session { ifs: IfsControl { secret_ingredient: !c.secret_ingredient, ..c }, ..s }, true),
            if !c.secret_ingredient { KeyAction::RandomizeSecret } else { KeyAction::Nothing },
        ),
        Key::N => {
            let p = ((c.preset_idx + 1) % (PRESET_CHOICES as int)) as usize;
            (
                dirtied(Session { ifs: IfsControl { preset_idx: p, ..c }, ..s }, true),
                if p == PRESET_COUNT { KeyAction::RandomizeCenter } else { KeyAction::Nothing },
            )
        },
        Key::B => (
            dirtied(Session { ifs: IfsControl { background_mode: ((c.background_mode + 1) % (BACKGROUND_COUNT as int)) as usize, ..c }, ..s }, true),
            KeyAction::Nothing,
        ),
        Key::C => (dirtied(s, true), KeyAction::Nothing),
        Key::V => (dirtied(s, false), KeyAction::Nothing),
        Key::L => (
            dirtied(Session { ifs: IfsControl { lightness: cycled(c.lightness, LIGHTNESS_COUNT as int), ..c }, ..s }, false),
            KeyAction::Nothing,
        ),
        Key::W => (
            dirtied(Session { ifs: IfsControl { whitershade: cycled(c.whitershade, WHITERSHADE_COUNT as int), ..c }, ..s }, false),
            KeyAction::Nothing,
        ),
        Key::R => (
            dirtied(s, c.preset_idx == PRESET_COUNT),
            KeyAction::RandomizeView { center: c.preset_idx == PRESET_COUNT },
        ),
        Key::Space => (
            dirtied(Session { ifs: IfsControl { freeze_c: !c.freeze_c, ..c }, ..s }, true),
            KeyAction::Nothing,
        ),
    }
}

/// The buffers that must be cleared before rendering a frame of `s`:
/// (view, shadow map).
pub open spec fn spec_frame_clears(s: Session) -> (bool, bool) {
    (s.view_dirty || !s.ifs.freeze_c, s.show_shadows && (s.shadow_dirty || !s.ifs.freeze_c))
}

/// `s` after a frame was rendered: a frozen constant keeps the buffers, so
/// their clearing is done with.
pub open spec fn spec_frame_done(s: Session) -> Session {
    Session {
        view_dirty: s.view_dirty && !s.ifs.freeze_c,
        shadow_dirty: s.shadow_dirty && !s.ifs.freeze_c,
        ..s
    }
}

impl Session {
    /// The session the viewer starts with.
    pub fn new() -> (s: Self)
        ensures
            s == initial_session(),
    {
        let mut ifs = IfsControl::default();
        ifs.set3d_index = Some(3);
        ifs.preset_idx = 0;
        ifs.freeze_c = true;
        Session { ifs, view_dirty: true, shadow_dirty: true, show_shadows: true }
    }

    /// Reacts to a press of `key`: updates the settings, marks what must be
    /// cleared and answers the outside work the press asks for.
    #[verifier::rlimit(40)]
    pub fn press(&mut self, key: Key) -> (a: KeyAction)
        requires
            key_ok(*old(self), key),
        ensures
            (*final(self), a) == pressed(*old(self), key),
    {
        let mut both = true;
        let mut action = KeyAction::Nothing;
        match key {
            Key::P => {
                both = false;
                action = KeyAction::RandomizePalette;
            },
            Key::S => {
                let cur = match self.ifs.set3d_index {
                    Some(v) => v,
                    None => 0,
                };
                self.ifs.set3d_index = Some(cycle_i32(cur, SET_COUNT));
            },
            Key::X => {
                self.ifs.x_mode = cycle_i32(self.ifs.x_mode, X_MODE_COUNT);
            },
            Key::Z => {
                self.ifs.secret_ingredient = !self.ifs.secret_ingredient;
                if self.ifs.secret_ingredient {
                    action = KeyAction::RandomizeSecret;
                }
            },
            Key::N => {
                self.ifs.preset_idx = (self.ifs.preset_idx + 1) % PRESET_CHOICES;
                if self.ifs.preset_idx == PRESET_COUNT {
                    action = KeyAction::RandomizeCenter;
                }
            },
            Key::B => {
                self.ifs.background_mode = (self.ifs.background_mode + 1) % BACKGROUND_COUNT;
            },
            Key::C => {},
            Key::V => {
                both = false;
            },
            Key::L => {
                both = false;
                self.ifs.lightness = cycle_i32(self.ifs.lightness, LIGHTNESS_COUNT);
            },
            Key::W => {
                both = false;
                self.ifs.whitershade = cycle_i32(self.ifs.whitershade, WHITERSHADE_COUNT);
            },
            Key::R => {
                both = self.ifs.preset_idx == PRESET_COUNT;
                action = KeyAction::RandomizeView { center: both };
            },
            Key::Space => {
                self.ifs.freeze_c = !self.ifs.freeze_c;
            },
        }
        self.view_dirty = true;
        if both {
            self.shadow_dirty = true;
        }
        action
    }

    /// Fixes the secret ingredient's shape: squaring when `square`, the
    /// extra coordinate when `extra` or when there is no squaring, so that
    /// the ingredient always does something.
    pub fn set_secret_shape(&mut self, square: bool, extra: bool)
        ensures
            *final(self) == (Session {
                ifs: IfsControl { secret_square: square, secret_extra_coord: extra || !square, ..old(self).ifs },
                ..*old(self)
            }),
            final(self).ifs.secret_square || final(self).ifs.secret_extra_coord,
    {
        self.ifs.secret_square = square;
        self.ifs.secret_extra_coord = extra;
        if !self.ifs.secret_square {
            self.ifs.secret_extra_coord = true;
        }
    }

    /// Which buffers to clear before the next frame: (view, shadow map).
    pub fn frame_clears(&self) -> (c: (bool, bool))
        ensures
            c == spec_frame_clears(*self),
    {
        (self.view_dirty || !self.ifs.freeze_c, self.show_shadows && (self.shadow_dirty || !self.ifs.freeze_c))
    }

    /// Records that a frame was rendered.
    pub fn end_frame(&mut self)
        ensures
            *final(self) == spec_frame_done(*old(self)),
    {
        if self.view_dirty && self.ifs.freeze_c {
            self.view_dirty = false;
        }
        if self.shadow_dirty && self.ifs.freeze_c {
            self.shadow_dirty = false;
        }
    }
}

/// The session after `n` presses of `key`.
pub open spec fn press_n(s: Session, key: Key, n: nat) -> Session
    decreases n,
{
    if n == 0 {
        s
    } else {
        pressed(press_n(s, key, (n - 1) as nat), key).0
    }
}

/// How many presses of `key` bring its setting back round; 0 for keys
/// that cycle no setting.
pub open spec fn period(key: Key) -> nat {
    match key {
        Key::S => SET_COUNT as nat,
        Key::X => X_MODE_COUNT as nat,
        Key::N => PRESET_CHOICES as nat,
        Key::B => BACKGROUND_COUNT as nat,
        Key::L => LIGHTNESS_COUNT as nat,
        Key::W => WHITERSHADE_COUNT as nat,
        Key::Z => 2,
        Key::Space => 2,
        _ => 0,
    }
}

/// The setting that `key` cycles lies in its range.
pub open spec fn in_range(c: IfsControl, key: Key) -> bool {
    match key {
        Key::S => c.set3d_index matches Some(i) && 0 <= i < SET_COUNT,
        Key::X => 0 <= c.x_mode < X_MODE_COUNT,
        Key::N => c.preset_idx < PRESET_CHOICES,
        Key::B => c.background_mode < BACKGROUND_COUNT,
        Key::L => 0 <= c.lightness < LIGHTNESS_COUNT,
        Key::W => 0 <= c.whitershade < WHITERSHADE_COUNT,
        _ => true,
    }
}

/// The settings `c` with the setting of `key` advanced `j` times.
pub open spec fn advanced(c: IfsControl, key: Key, j: nat) -> IfsControl {
    match key {
        Key::S => IfsControl { set3d_index: Some(((c.set3d_index.unwrap_or(0) + j) % (SET_COUNT as int)) as i32), ..c },
        Key::X => IfsControl { x_mode: ((c.x_mode + j) % (X_MODE_COUNT as int)) as i32, ..c },
        Key::N => IfsControl { preset_idx: ((c.preset_idx + j) % (PRESET_CHOICES as int)) as usize, ..c },
        Key::B => IfsControl { background_mode: ((c.background_mode + j) % (BACKGROUND_COUNT as int)) as usize, ..c },
        Key::L => IfsControl { lightness: ((c.lightness + j) % (LIGHTNESS_COUNT as int)) as i32, ..c },
        Key::W => IfsControl { whitershade: ((c.whitershade + j) % (WHITERSHADE_COUNT as int)) as i32, ..c },
        Key::Z => IfsControl { secret_ingredient: c.secret_ingredient != (j % 2 == 1), ..c },
        Key::Space => IfsControl { freeze_c: c.freeze_c != (j % 2 == 1), ..c },
        _ => c,
    }
}

proof fn lemma_mod_succ(a: int, n: int)
    requires
        0 <= a,
        0 < n,
    ensures
        0 <= a % n < n,
        ((a % n) + 1) % n == (a + 1) % n,
{
    vstd::arithmetic::div_mod::lemma_add_mod_noop(a, 1, n);
    vstd::arithmetic::div_mod::lemma_mod_bound(a, n);
    if n > 1 {
        vstd::arithmetic::div_mod::lemma_small_mod(1, n as nat);
    } else {
        assert((a % n) + 1 == 1);
    }
}

proof fn lemma_advanced(s: Session, key: Key, j: nat)
    requires
        in_range(s.ifs, key),
        period(key) > 0,
    ensures
        press_n(s, key, j).ifs == advanced(s.ifs, key, j),
    decreases j,
{
    if j > 0 {
        let k = (j - 1) as nat;
        lemma_advanced(s, key, k);
        let prev = press_n(s, key, k);
        assert(press_n(s, key, j) == pressed(prev, key).0);
        let c = s.ifs;
        match key {
            Key::S => {
                lemma_mod_succ(c.set3d_index.unwrap_or(0) + k, SET_COUNT as int);
            },
            Key::X => {
                lemma_mod_succ(c.x_mode + k, X_MODE_COUNT as int);
            },
            Key::N => {
                lemma_mod_succ(c.preset_idx + k, PRESET_CHOICES as int);
            },
            Key::B => {
                lemma_mod_succ(c.background_mode + k, BACKGROUND_COUNT as int);
            },
            Key::L => {
                lemma_mod_succ(c.lightness + k, LIGHTNESS_COUNT as int);
            },
            Key::W => {
                lemma_mod_succ(c.whitershade + k, WHITERSHADE_COUNT as int);
            },
            _ => {},
        }
    }
}

/// Pressing a cycling key as many times as its setting has values brings
/// the settings back to where they were.
pub proof fn lemma_cycle_returns(s: Session, key: Key)
    requires
        in_range(s.ifs, key),
        period(key) > 0,
    ensures
        press_n(s, key, period(key)).ifs == s.ifs,
{
    lemma_advanced(s, key, period(key));
}

/// With the constant frozen, once a frame is done nothing needs clearing
/// until the next key press; with it animated, every frame clears the view
/// (and the shadow map when shadows are shown).
pub proof fn lemma_frame_clears(s: Session)
    ensures
        s.ifs.freeze_c ==> spec_frame_clears(spec_frame_done(s)) == (false, false),
        !s.ifs.freeze_c ==> spec_frame_clears(s) == (true, s.show_shadows),
        !s.ifs.freeze_c ==> spec_frame_clears(spec_frame_done(s)) == (true, s.show_shadows),
{
}

/// Every press marks the view for clearing; a press that changes what the
/// fractal is (set, symmetry, secret, preset, background, clear, animation)
/// marks the shadow map too.
pub proof fn lemma_press_dirties(s: Session, key: Key)
    ensures
        pressed(s, key).0.view_dirty,
        (key == Key::S || key == Key::X || key == Key::Z || key == Key::N || key == Key::B || key
            == Key::C || key == Key::Space) ==> pressed(s, key).0.shadow_dirty,
        s.shadow_dirty ==> pressed(s, key).0.shadow_dirty,
{
}

/// The constant is animated exactly when it is not frozen, whatever preset
/// is selected; a frozen constant comes from the selected preset when
/// presets are on and it exists, else from the caller. Pressing Space on a
/// frozen session therefore animates the constant, and pressing it again
/// brings back the source it had.
pub proof fn lemma_center_source(c: IfsControl, s: Session)
    ensures
        (spec_center_source(c) == CenterSource::Animated) == !c.freeze_c,
        c.freeze_c && c.use_presets && c.preset_idx < PRESET_COUNT ==> spec_center_source(c)
            == CenterSource::Preset(c.preset_idx),
        c.freeze_c && !(c.use_presets && c.preset_idx < PRESET_COUNT) ==> spec_center_source(c)
            == CenterSource::Custom,
        spec_center_source(c) matches CenterSource::Preset(i) ==> i == c.preset_idx && i
            < PRESET_COUNT,
        s.ifs.freeze_c ==> spec_center_source(pressed(s, Key::Space).0.ifs) == CenterSource::Animated,
        spec_center_source(pressed(pressed(s, Key::Space).0, Key::Space).0.ifs) == spec_center_source(
            s.ifs,
        ),
{
}

/// Each kind of outside work is asked for by one key only: a new palette by
/// P (always), the secret ingredient's shape by Z when it turns on, a random
/// constant by N when it reaches the last preset, a random view by R
/// (always, with a constant exactly when the last preset is selected).
/// Every other key asks for nothing. The clear keys change no setting: C
/// marks both buffers, V the view only.
pub proof fn lemma_press_actions(s: Session, key: Key)
    ensures
        (pressed(s, key).1 == KeyAction::RandomizePalette) == (key == Key::P),
        (pressed(s, key).1 == KeyAction::RandomizeSecret) == (key == Key::Z
            && !s.ifs.secret_ingredient),
        (pressed(s, key).1 == KeyAction::RandomizeCenter) == (key == Key::N && (s.ifs.preset_idx
            + 1) % (PRESET_CHOICES as int) == PRESET_COUNT),
        (pressed(s, key).1 matches KeyAction::RandomizeView { center }) == (key == Key::R),
        pressed(s, key).1 matches KeyAction::RandomizeView { center } ==> center == (
        s.ifs.preset_idx == PRESET_COUNT),
        (key == Key::S || key == Key::X || key == Key::B || key == Key::C || key == Key::V || key
            == Key::L || key == Key::W || key == Key::Space) ==> pressed(s, key).1
            == KeyAction::Nothing,
        pressed(s, Key::C).0 == (Session { view_dirty: true, shadow_dirty: true, ..s }),
        pressed(s, Key::V).0 == (Session { view_dirty: true, ..s }),
        pressed(s, Key::P).0 == (Session { view_dirty: true, ..s }),
{
}

} // verus!
