//! Virtual-key codes of the keys the window manager reacts to.

use vstd::prelude::*;

verus! {

/// Virtual-key code of the left Windows key.
pub const VK_LWIN: u32 = 0x5B;
/// Virtual-key code of the right Windows key.
pub const VK_RWIN: u32 = 0x5C;
/// Virtual-key code of the H key.
pub const VK_H: u32 = 0x48;
/// Virtual-key code of the K key.
pub const VK_K: u32 = 0x4B;

/// The keys the window manager knows by name.
pub enum VirtualKey {
    LeftWin,
    RightWin,
    H,
    K,
}

/// The virtual-key code of a named key.
pub open spec fn spec_key_code(key: VirtualKey) -> u32 {
    match key {
        VirtualKey::LeftWin => VK_LWIN,
        VirtualKey::RightWin => VK_RWIN,
        VirtualKey::H => VK_H,
        VirtualKey::K => VK_K,
    }
}

/// The named key with a virtual-key code, if there is one.
pub open spec fn spec_key_from_code(code: u32) -> Option<VirtualKey> {
    if code == VK_LWIN {
        Some(VirtualKey::LeftWin)
    } else if code == VK_RWIN {
        Some(VirtualKey::RightWin)
    } else if code == VK_H {
        Some(VirtualKey::H)
    } else if code == VK_K {
        Some(VirtualKey::K)
    } else {
        None
    }
}

impl VirtualKey {
    /// The virtual-key code of this key.
    pub fn code(&self) -> (code: u32)
        ensures
            code == spec_key_code(*self),
    {
        match self {
            VirtualKey::LeftWin => VK_LWIN,
            VirtualKey::RightWin => VK_RWIN,
            VirtualKey::H => VK_H,
            VirtualKey::K => VK_K,
        }
    }

    /// The named key with the given virtual-key code, `None` for any other code.
    pub fn from_code(code: u32) -> (key: Option<VirtualKey>)
        ensures
            key == spec_key_from_code(code),
    {
        if code == VK_LWIN {
            Some(VirtualKey::LeftWin)
        } else if code == VK_RWIN {
            Some(VirtualKey::RightWin)
        } else if code == VK_H {
            Some(VirtualKey::H)
        } else if code == VK_K {
            Some(VirtualKey::K)
        } else {
            None
        }
    }
}

/// Reading a key back from its code gives the same key.
pub proof fn lemma_key_code_round_trip(key: VirtualKey)
    ensures
        spec_key_from_code(spec_key_code(key)) == Some(key),
{
}

/// Exactly the codes of the left (0x5B) and right (0x5C) Windows keys are
/// Windows keys.
pub proof fn lemma_win_keys_are_the_two_windows_keys(code: u32)
    ensures
        spec_is_win_key(code) <==> (code == 0x5B || code == 0x5C),
{
}

/// The named keys carry their Win32 virtual-key codes: left Windows 0x5B,
/// right Windows 0x5C, H 0x48, K 0x4B.
pub proof fn lemma_key_codes_are_win32_codes()
    ensures
        spec_key_code(VirtualKey::LeftWin) == 0x5B,
        spec_key_code(VirtualKey::RightWin) == 0x5C,
        spec_key_code(VirtualKey::H) == 0x48,
        spec_key_code(VirtualKey::K) == 0x4B,
{
}

/// Reading a code gives a key only when the code is that key's own code,
/// and every code of a named key is read back: `from_code` is the exact
/// inverse of `code`.
pub proof fn lemma_from_code_inverts_code(code: u32)
    ensures
        spec_key_from_code(code) matches Some(key) ==> spec_key_code(key) == code,
        spec_key_from_code(code) is None ==> forall|key: VirtualKey| spec_key_code(key) != code,
{
    if spec_key_from_code(code) is None {
        assert forall|key: VirtualKey| spec_key_code(key) != code by {
            match key {
                VirtualKey::LeftWin => {},
                VirtualKey::RightWin => {},
                VirtualKey::H => {},
                VirtualKey::K => {},
            }
        }
    }
}

/// Either Windows key.
pub open spec fn spec_is_win_key(code: u32) -> bool {
    code == VK_LWIN || code == VK_RWIN
}

/// Whether a virtual-key code is that of the left or the right Windows key.
pub fn is_win_key(code: u32) -> (b: bool)
    ensures
        b == spec_is_win_key(code),
{
    code == VK_LWIN || code == VK_RWIN
}

} // verus!
