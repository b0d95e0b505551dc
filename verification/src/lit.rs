//! Fixed byte strings of the tool: command templates, architecture
//! names and well-known device paths.

use vstd::prelude::*;

verus! {

/// The bytes of `adb shell su -c "ls `.
pub open spec fn ls_prefix() -> Seq<u8> {
    seq![97u8, 100u8, 98u8, 32u8, 115u8, 104u8, 101u8, 108u8, 108u8, 32u8, 115u8, 117u8, 32u8, 45u8, 99u8, 32u8, 34u8, 108u8, 115u8, 32u8]
}

pub fn make_ls_prefix() -> (r: Vec<u8>)
    ensures
        r@ == ls_prefix(),
{
    let mut v: Vec<u8> = Vec::new();
    v.push(97);
    v.push(100);
    v.push(98);
    v.push(32);
    v.push(115);
    v.push(104);
    v.push(101);
    v.push(108);
    v.push(108);
    v.push(32);
    v.push(115);
    v.push(117);
    v.push(32);
    v.push(45);
    v.push(99);
    v.push(32);
    v.push(34);
    v.push(108);
    v.push(115);
    v.push(32);
    proof {
        assert(v@ =~= ls_prefix());
    }
    v
}

/// The bytes of `adb push `.
pub open spec fn push_prefix() -> Seq<u8> {
    seq![97u8, 100u8, 98u8, 32u8, 112u8, 117u8, 115u8, 104u8, 32u8]
}

pub fn make_push_prefix() -> (r: Vec<u8>)
    ensures
        r@ == push_prefix(),
{
    let mut v: Vec<u8> = Vec::new();
    v.push(97);
    v.push(100);
    v.push(98);
    v.push(32);
    v.push(112);
    v.push(117);
    v.push(115);
    v.push(104);
    v.push(32);
    proof {
        assert(v@ =~= push_prefix());
    }
    v
}

/// The bytes of ` /sdcard/`.
pub open spec fn sdcard_prefix() -> Seq<u8> {
    seq![32u8, 47u8, 115u8, 100u8, 99u8, 97u8, 114u8, 100u8, 47u8]
}

pub fn make_sdcard_prefix() -> (r: Vec<u8>)
    ensures
        r@ == sdcard_prefix(),
{
    let mut v: Vec<u8> = Vec::new();
    v.push(32);
    v.push(47);
    v.push(115);
    v.push(100);
    v.push(99);
    v.push(97);
    v.push(114);
    v.push(100);
    v.push(47);
    proof {
        assert(v@ =~= sdcard_prefix());
    }
    v
}

/// The bytes of `adb shell su -c "cp /sdcard/`.
pub open spec fn cp_prefix() -> Seq<u8> {
    seq![97u8, 100u8, 98u8, 32u8, 115u8, 104u8, 101u8, 108u8, 108u8, 32u8, 115u8, 117u8, 32u8, 45u8, 99u8, 32u8, 34u8, 99u8, 112u8, 32u8, 47u8, 115u8, 100u8, 99u8, 97u8, 114u8, 100u8, 47u8]
}

pub fn make_cp_prefix() -> (r: Vec<u8>)
    ensures
        r@ == cp_prefix(),
{
    let mut v: Vec<u8> = Vec::new();
    v.push(97);
    v.push(100);
    v.push(98);
    v.push(32);
    v.push(115);
    v.push(104);
    v.push(101);
    v.push(108);
    v.push(108);
    v.push(32);
    v.push(115);
    v.push(117);
    v.push(32);
    v.push(45);
    v.push(99);
    v.push(32);
    v.push(34);
    v.push(99);
    v.push(112);
    v.push(32);
    v.push(47);
    v.push(115);
    v.push(100);
    v.push(99);
    v.push(97);
    v.push(114);
    v.push(100);
    v.push(47);
    proof {
        assert(v@ =~= cp_prefix());
    }
    v
}

/// The bytes of `adb shell rm /sdcard/`.
pub open spec fn rm_prefix() -> Seq<u8> {
    seq![97u8, 100u8, 98u8, 32u8, 115u8, 104u8, 101u8, 108u8, 108u8, 32u8, 114u8, 109u8, 32u8, 47u8, 115u8, 100u8, 99u8, 97u8, 114u8, 100u8, 47u8]
}

pub fn make_rm_prefix() -> (r: Vec<u8>)
    ensures
        r@ == rm_prefix(),
{
    let mut v: Vec<u8> = Vec::new();
    v.push(97);
    v.push(100);
    v.push(98);
    v.push(32);
    v.push(115);
    v.push(104);
    v.push(101);
    v.push(108);
    v.push(108);
    v.push(32);
    v.push(114);
    v.push(109);
    v.push(32);
    v.push(47);
    v.push(115);
    v.push(100);
    v.push(99);
    v.push(97);
    v.push(114);
    v.push(100);
    v.push(47);
    proof {
        assert(v@ =~= rm_prefix());
    }
    v
}

/// The bytes of `arm`.
pub open spec fn arm_name() -> Seq<u8> {
    seq![97u8, 114u8, 109u8]
}

pub fn make_arm_name() -> (r: Vec<u8>)
    ensures
        r@ == arm_name(),
{
    let mut v: Vec<u8> = Vec::new();
    v.push(97);
    v.push(114);
    v.push(109);
    proof {
        assert(v@ =~= arm_name());
    }
    v
}

/// The bytes of `arm64`.
pub open spec fn arm64_name() -> Seq<u8> {
    seq![97u8, 114u8, 109u8, 54u8, 52u8]
}

pub fn make_arm64_name() -> (r: Vec<u8>)
    ensures
        r@ == arm64_name(),
{
    let mut v: Vec<u8> = Vec::new();
    v.push(97);
    v.push(114);
    v.push(109);
    v.push(54);
    v.push(52);
    proof {
        assert(v@ =~= arm64_name());
    }
    v
}

/// The bytes of `armeabi-v7a`.
pub open spec fn arm_tag() -> Seq<u8> {
    seq![97u8, 114u8, 109u8, 101u8, 97u8, 98u8, 105u8, 45u8, 118u8, 55u8, 97u8]
}

pub fn make_arm_tag() -> (r: Vec<u8>)
    ensures
        r@ == arm_tag(),
{
    let mut v: Vec<u8> = Vec::new();
    v.push(97);
    v.push(114);
    v.push(109);
    v.push(101);
    v.push(97);
    v.push(98);
    v.push(105);
    v.push(45);
    v.push(118);
    v.push(55);
    v.push(97);
    proof {
        assert(v@ =~= arm_tag());
    }
    v
}

/// The bytes of `arm64-v8a`.
pub open spec fn arm64_tag() -> Seq<u8> {
    seq![97u8, 114u8, 109u8, 54u8, 52u8, 45u8, 118u8, 56u8, 97u8]
}

pub fn make_arm64_tag() -> (r: Vec<u8>)
    ensures
        r@ == arm64_tag(),
{
    let mut v: Vec<u8> = Vec::new();
    v.push(97);
    v.push(114);
    v.push(109);
    v.push(54);
    v.push(52);
    v.push(45);
    v.push(118);
    v.push(56);
    v.push(97);
    proof {
        assert(v@ =~= arm64_tag());
    }
    v
}

/// The bytes of `/data/app`.
pub open spec fn app_root() -> Seq<u8> {
    seq![47u8, 100u8, 97u8, 116u8, 97u8, 47u8, 97u8, 112u8, 112u8]
}

pub fn make_app_root() -> (r: Vec<u8>)
    ensures
        r@ == app_root(),
{
    let mut v: Vec<u8> = Vec::new();
    v.push(47);
    v.push(100);
    v.push(97);
    v.push(116);
    v.push(97);
    v.push(47);
    v.push(97);
    v.push(112);
    v.push(112);
    proof {
        assert(v@ =~= app_root());
    }
    v
}

/// The bytes of `/lib/`.
pub open spec fn lib_subdir() -> Seq<u8> {
    seq![47u8, 108u8, 105u8, 98u8, 47u8]
}

pub fn make_lib_subdir() -> (r: Vec<u8>)
    ensures
        r@ == lib_subdir(),
{
    let mut v: Vec<u8> = Vec::new();
    v.push(47);
    v.push(108);
    v.push(105);
    v.push(98);
    v.push(47);
    proof {
        assert(v@ =~= lib_subdir());
    }
    v
}

/// The bytes of `/data/data/`.
pub open spec fn data_data() -> Seq<u8> {
    seq![47u8, 100u8, 97u8, 116u8, 97u8, 47u8, 100u8, 97u8, 116u8, 97u8, 47u8]
}

pub fn make_data_data() -> (r: Vec<u8>)
    ensures
        r@ == data_data(),
{
    let mut v: Vec<u8> = Vec::new();
    v.push(47);
    v.push(100);
    v.push(97);
    v.push(116);
    v.push(97);
    v.push(47);
    v.push(100);
    v.push(97);
    v.push(116);
    v.push(97);
    v.push(47);
    proof {
        assert(v@ =~= data_data());
    }
    v
}

/// The bytes of `/lib`.
pub open spec fn lib_suffix() -> Seq<u8> {
    seq![47u8, 108u8, 105u8, 98u8]
}

pub fn make_lib_suffix() -> (r: Vec<u8>)
    ensures
        r@ == lib_suffix(),
{
    let mut v: Vec<u8> = Vec::new();
    v.push(47);
    v.push(108);
    v.push(105);
    v.push(98);
    proof {
        assert(v@ =~= lib_suffix());
    }
    v
}

/// The bytes of `.so`.
pub open spec fn so_suffix() -> Seq<u8> {
    seq![46u8, 115u8, 111u8]
}

pub fn make_so_suffix() -> (r: Vec<u8>)
    ensures
        r@ == so_suffix(),
{
    let mut v: Vec<u8> = Vec::new();
    v.push(46);
    v.push(115);
    v.push(111);
    proof {
        assert(v@ =~= so_suffix());
    }
    v
}

} // verus!
