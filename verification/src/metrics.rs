//! Figures that the host reports as numbers and lists: uptime, memory, file
//! systems, network interfaces; and the names taken from the environment.

use crate::host::{presentable, Platform, UNKNOWN};
use crate::number::{
    decimal, gib_text, lemma_decimal_digits, lemma_gib_text, push_decimal, push_gib,
};
use crate::text::{
    chars_of, clean, cleaned, extend_str, has_prefix, neat, opt_view, rows, same, slice, split,
    split_on, starts_with, string_of,
};
use vstd::prelude::*;

verus! {

/// The environment variable that holds the path of the user's shell.
pub const SHELL: &'static str = "SHELL";

/// The environment variable that holds the user's name.
pub const USER: &'static str = "USER";

/// The environment variable that holds the user's name where `USER` is not set.
pub const USERNAME: &'static str = "USERNAME";

/// The shell named where the environment names none.
pub const DEFAULT_SHELL: &'static str = "sh";

/// The user named where the environment names none.
pub const DEFAULT_USER: &'static str = "aperfetch";

/// Main memory, in bytes.
#[derive(Clone, Copy, Debug, PartialEq, Eq)]
pub struct Memory {
    pub total: u64,
    pub free: u64,
}

/// A mounted file system, sizes in bytes.
#[derive(Debug, PartialEq, Eq)]
pub struct Mount {
    pub mounted_on: String,
    pub total: u64,
    pub avail: u64,
}

/// What a `Mount` holds.
pub struct MountView {
    pub mounted_on: Seq<char>,
    pub total: nat,
    pub avail: nat,
}

impl View for Mount {
    type V = MountView;

    open spec fn view(&self) -> MountView {
        MountView { mounted_on: self.mounted_on@, total: self.total as nat, avail: self.avail as nat }
    }
}

/// The views of a list of mounts.
pub open spec fn mount_views(mounts: Seq<Mount>) -> Seq<MountView> {
    mounts.map_values(|m: Mount| m@)
}

/// An address of a network interface.
#[derive(Clone, Copy, Debug, PartialEq, Eq)]
pub enum Address {
    /// An IPv4 address, by its four bytes.
    V4(u8, u8, u8, u8),
    /// Any other address.
    Other,
}

/// A network interface with its addresses.
#[derive(Debug, PartialEq, Eq)]
pub struct Interface {
    pub name: String,
    pub addrs: Vec<Address>,
}

/// What an `Interface` holds.
pub struct InterfaceView {
    pub name: Seq<char>,
    pub addrs: Seq<Address>,
}

impl View for Interface {
    type V = InterfaceView;

    open spec fn view(&self) -> InterfaceView {
        InterfaceView { name: self.name@, addrs: self.addrs@ }
    }
}

/// The views of a list of interfaces.
pub open spec fn interface_views(nets: Seq<Interface>) -> Seq<InterfaceView> {
    nets.map_values(|n: Interface| n@)
}

/// The address of the local network, with the interface that has it.
#[derive(Debug, PartialEq, Eq)]
pub struct LocalIp {
    pub interface: String,
    pub address: String,
}

/// What a `LocalIp` holds.
pub struct LocalIpView {
    pub interface: Seq<char>,
    pub address: Seq<char>,
}

impl View for LocalIp {
    type V = LocalIpView;

    open spec fn view(&self) -> LocalIpView {
        LocalIpView { interface: self.interface@, address: self.address@ }
    }
}

// ----------------------------------------------------------------------
// Uptime
// ----------------------------------------------------------------------

/// Seconds of uptime as days, hours of the day and minutes of the hour.
pub open spec fn uptime_text(secs: nat) -> Seq<char> {
    decimal(secs / 86400) + " days, "@ + decimal(secs % 86400 / 3600) + " hours, "@ + decimal(
        secs % 3600 / 60,
    ) + " mins"@
}

/// The uptime as shown; the sentinel where the host gave none.
pub fn format_uptime(uptime: Option<u64>) -> (s: String)
    ensures
        s@ == match uptime {
            Some(secs) => uptime_text(secs as nat),
            None => UNKNOWN@,
        },
        presentable(s@),
{
    match uptime {
        Some(secs) => {
            let mut out: Vec<char> = Vec::new();
            push_decimal(&mut out, secs / 86400);
            extend_str(&mut out, " days, ");
            push_decimal(&mut out, secs % 86400 / 3600);
            extend_str(&mut out, " hours, ");
            push_decimal(&mut out, secs % 3600 / 60);
            extend_str(&mut out, " mins");
            proof {
                reveal_strlit(" mins");
                lemma_decimal_digits((secs / 86400) as nat);
                assert(out@ =~= uptime_text(secs as nat));
                assert(out@[0] == decimal((secs / 86400) as nat)[0]);
            }
            string_of(&out)
        },
        None => UNKNOWN.to_owned(),
    }
}

// ----------------------------------------------------------------------
// Memory and disk
// ----------------------------------------------------------------------

/// What is left of `total` once `rest` is taken from it, and nothing where
/// `rest` is the larger.
pub open spec fn remainder(total: nat, rest: nat) -> nat {
    if total >= rest {
        (total - rest) as nat
    } else {
        0
    }
}

/// Used and total space as shown: `"60.00 GiB / 100.00 GiB"`.
pub open spec fn usage_text(used: nat, total: nat) -> Seq<char> {
    gib_text(used) + " GiB / "@ + gib_text(total) + " GiB"@
}

/// The mount point whose file system stands for the disk.
pub open spec fn disk_root(platform: Platform) -> Option<Seq<char>> {
    match platform {
        Platform::Android => Some("/data"@),
        Platform::Windows => None,
        _ => Some("/"@),
    }
}

/// The first of `mounts` that is mounted on `path`.
pub open spec fn first_mount(mounts: Seq<MountView>, path: Seq<char>) -> Option<MountView>
    decreases mounts.len(),
{
    if mounts.len() == 0 {
        None
    } else if mounts[0].mounted_on == path {
        Some(mounts[0])
    } else {
        first_mount(mounts.drop_first(), path)
    }
}

/// Used and total space of the disk; the sentinel where the host gave no
/// mounts, where none is mounted on the platform's root, and on a platform
/// that has no such root.
pub open spec fn disk_info(platform: Platform, mounts: Option<Seq<MountView>>) -> Seq<char> {
    if mounts is Some && disk_root(platform) is Some {
        match first_mount(mounts->0, disk_root(platform)->0) {
            Some(m) => usage_text(remainder(m.total, m.avail), m.total),
            None => UNKNOWN@,
        }
    } else {
        UNKNOWN@
    }
}

/// Calls `systemstat::saturating_sub_bytes` on two sizes in bytes. That
/// function subtracts and stops at zero.
#[verifier::external_body]
fn saturating_sub_bytes(l: u64, r: u64) -> (d: u64)
    ensures
        d == remainder(l as nat, r as nat),
{
    systemstat::saturating_sub_bytes(systemstat::ByteSize::b(l), systemstat::ByteSize::b(r))
        .as_u64()
}

/// Used and total space as shown.
pub fn format_usage(used: u64, total: u64) -> (s: String)
    ensures
        s@ == usage_text(used as nat, total as nat),
        neat(s@),
{
    let mut out: Vec<char> = Vec::new();
    push_gib(&mut out, used);
    extend_str(&mut out, " GiB / ");
    push_gib(&mut out, total);
    extend_str(&mut out, " GiB");
    proof {
        reveal_strlit(" GiB");
        lemma_gib_text(used as nat);
        assert(out@ =~= usage_text(used as nat, total as nat));
        assert(out@[0] == gib_text(used as nat)[0]);
    }
    string_of(&out)
}

/// Used and total memory as shown, the used part being what is not free;
/// the sentinel where the host gave no figures.
pub fn format_memory(memory: Option<Memory>) -> (s: String)
    ensures
        s@ == match memory {
            Some(m) => usage_text(remainder(m.total as nat, m.free as nat), m.total as nat),
            None => UNKNOWN@,
        },
        presentable(s@),
{
    match memory {
        Some(m) => format_usage(m.total.saturating_sub(m.free), m.total),
        None => UNKNOWN.to_owned(),
    }
}

/// Used and total space of the disk as shown.
#[verifier::loop_isolation(false)]
pub fn get_disk_info(platform: Platform, mounts: Option<&Vec<Mount>>) -> (s: String)
    ensures
        s@ == disk_info(
            platform,
            match mounts {
                Some(ms) => Some(mount_views(ms@)),
                None => None,
            },
        ),
        presentable(s@),
{
    let root = match platform {
        Platform::Android => "/data",
        Platform::Windows => {
            return UNKNOWN.to_owned();
        },
        _ => "/",
    };
    let root = chars_of(root);
    match mounts {
        None => UNKNOWN.to_owned(),
        Some(ms) => {
            let mut i: usize = 0;
            proof {
                assert(mount_views(ms@).skip(0) =~= mount_views(ms@));
            }
            while i < ms.len()
                invariant
                    i <= ms.len(),
                    first_mount(mount_views(ms@), root@) == first_mount(
                        mount_views(ms@).skip(i as int),
                        root@,
                    ),
                decreases ms.len() - i,
            {
                let m = &ms[i];
                proof {
                    assert(mount_views(ms@).skip(i as int)[0] == m@);
                }
                if same(&chars_of(m.mounted_on.as_str()), &root) {
                    return format_usage(saturating_sub_bytes(m.total, m.avail), m.total);
                }
                proof {
                    assert(mount_views(ms@).skip(i as int).drop_first() =~= mount_views(ms@).skip(
                        i + 1,
                    ));
                }
                i += 1;
            }
            UNKNOWN.to_owned()
        },
    }
}

// ----------------------------------------------------------------------
// Local address
// ----------------------------------------------------------------------

/// An interface whose address counts as the local one: `wlan0`, `eth0`, or
/// a name that begins with `en`, `wl` or `usb`.
pub open spec fn watched(name: Seq<char>) -> bool {
    name == "wlan0"@ || name == "eth0"@ || has_prefix(name, "en"@) || has_prefix(name, "wl"@)
        || has_prefix(name, "usb"@)
}

/// The first IPv4 address among `addrs`.
pub open spec fn first_v4(addrs: Seq<Address>) -> Option<Address>
    decreases addrs.len(),
{
    if addrs.len() == 0 {
        None
    } else if addrs[0] is V4 {
        Some(addrs[0])
    } else {
        first_v4(addrs.drop_first())
    }
}

/// An IPv4 address in dotted notation.
pub open spec fn dotted(a: u8, b: u8, c: u8, d: u8) -> Seq<char> {
    decimal(a as nat) + "."@ + decimal(b as nat) + "."@ + decimal(c as nat) + "."@ + decimal(
        d as nat,
    )
}

/// The first IPv4 address of the first watched interface that has one.
pub open spec fn local_address(nets: Seq<InterfaceView>) -> Option<LocalIpView>
    decreases nets.len(),
{
    if nets.len() == 0 {
        None
    } else {
        match (if watched(nets[0].name) {
            first_v4(nets[0].addrs)
        } else {
            None
        }) {
            Some(Address::V4(a, b, c, d)) => Some(
                LocalIpView { interface: nets[0].name, address: dotted(a, b, c, d) },
            ),
            _ => local_address(nets.drop_first()),
        }
    }
}

/// Whether the interface `name` is a watched one.
pub fn is_watched(name: &str) -> (b: bool)
    ensures
        b == watched(name@),
{
    let n = chars_of(name);
    same(&n, &chars_of("wlan0")) || same(&n, &chars_of("eth0")) || starts_with(
        &n,
        &chars_of("en"),
    ) || starts_with(&n, &chars_of("wl")) || starts_with(&n, &chars_of("usb"))
}

/// The first IPv4 address among `addrs`.
pub fn find_v4(addrs: &Vec<Address>) -> (r: Option<Address>)
    ensures
        r == first_v4(addrs@),
        r matches Some(a) ==> a is V4,
{
    let mut i: usize = 0;
    proof {
        assert(addrs@.skip(0) =~= addrs@);
    }
    while i < addrs.len()
        invariant
            i <= addrs.len(),
            first_v4(addrs@) == first_v4(addrs@.skip(i as int)),
        decreases addrs.len() - i,
    {
        match addrs[i] {
            Address::V4(a, b, c, d) => {
                return Some(Address::V4(a, b, c, d));
            },
            Address::Other => {},
        }
        proof {
            assert(addrs@.skip(i as int).drop_first() =~= addrs@.skip(i + 1));
        }
        i += 1;
    }
    None
}

/// An IPv4 address in dotted notation.
pub fn format_v4(a: u8, b: u8, c: u8, d: u8) -> (s: String)
    ensures
        s@ == dotted(a, b, c, d),
        neat(s@),
{
    let mut out: Vec<char> = Vec::new();
    push_decimal(&mut out, a as u64);
    extend_str(&mut out, ".");
    push_decimal(&mut out, b as u64);
    extend_str(&mut out, ".");
    push_decimal(&mut out, c as u64);
    extend_str(&mut out, ".");
    push_decimal(&mut out, d as u64);
    proof {
        lemma_decimal_digits(a as nat);
        lemma_decimal_digits(d as nat);
        assert(out@ =~= dotted(a, b, c, d));
        assert(out@[0] == decimal(a as nat)[0]);
        assert(out@.last() == decimal(d as nat).last());
    }
    string_of(&out)
}

/// The local address: the first IPv4 address of the first watched interface
/// that has one, the interfaces taken in the order given. `None` where the
/// host gave no interfaces or none of them has such an address.
#[verifier::loop_isolation(false)]
pub fn local_ip(nets: Option<&Vec<Interface>>) -> (r: Option<LocalIp>)
    ensures
        match r {
            Some(ip) => nets is Some && local_address(interface_views(nets->0@)) == Some(ip@)
                && neat(ip.address@),
            None => nets is None || local_address(interface_views(nets->0@)) is None,
        },
{
    match nets {
        None => None,
        Some(ns) => {
            let mut i: usize = 0;
            proof {
                assert(interface_views(ns@).skip(0) =~= interface_views(ns@));
            }
            while i < ns.len()
                invariant
                    i <= ns.len(),
                    local_address(interface_views(ns@)) == local_address(
                        interface_views(ns@).skip(i as int),
                    ),
                decreases ns.len() - i,
            {
                proof {
                    assert(interface_views(ns@).skip(i as int).drop_first() =~= interface_views(
                        ns@,
                    ).skip(i + 1));
                }
                let net = &ns[i];
                proof {
                    assert(interface_views(ns@).skip(i as int)[0] == net@);
                }
                if is_watched(net.name.as_str()) {
                    if let Some(Address::V4(a, b, c, d)) = find_v4(&net.addrs) {
                        return Some(
                            LocalIp {
                                interface: net.name.clone(),
                                address: format_v4(a, b, c, d),
                            },
                        );
                    }
                }
                i += 1;
            }
            None
        },
    }
}

// ----------------------------------------------------------------------
// Names from the environment
// ----------------------------------------------------------------------

/// The last of `pieces` that is neither empty nor a single dot.
pub open spec fn last_name(pieces: Seq<Seq<char>>) -> Option<Seq<char>>
    decreases pieces.len(),
{
    if pieces.len() == 0 {
        None
    } else if pieces.last().len() > 0 && pieces.last() != "."@ {
        Some(pieces.last())
    } else {
        last_name(pieces.drop_last())
    }
}

/// The last component of a path whose components are parted by slashes.
/// Empty components and single dots do not count, and there is no such
/// component where the path ends in two dots.
pub open spec fn base_name(path: Seq<char>) -> Option<Seq<char>> {
    match last_name(split_on(path, '/')) {
        Some(name) => if name == ".."@ {
            None
        } else {
            Some(name)
        },
        None => None,
    }
}

/// The shell's name: the last component of the path that the environment
/// gives, trimmed; `sh` where there is no path or nothing comes of it.
pub open spec fn shell(path: Option<Seq<char>>) -> Seq<char> {
    let name = match path {
        Some(p) => match base_name(p) {
            Some(n) => clean(n),
            None => None,
        },
        None => None,
    };
    match name {
        Some(n) => n,
        None => DEFAULT_SHELL@,
    }
}

/// The last component of `path`.
#[verifier::loop_isolation(false)]
pub fn base_name_of(path: &Vec<char>) -> (r: Option<Vec<char>>)
    ensures
        opt_view(r) == base_name(path@),
{
    let pieces = split(path, '/');
    let dot = chars_of(".");
    let mut i: usize = pieces.len();
    proof {
        assert(rows(pieces@).take(i as int) =~= rows(pieces@));
    }
    while i > 0
        invariant
            i <= pieces.len(),
            dot@ == "."@,
            last_name(rows(pieces@)) == last_name(rows(pieces@).take(i as int)),
        decreases i,
    {
        let piece = &pieces[i - 1];
        proof {
            assert(rows(pieces@).take(i as int).last() == piece@);
            assert(piece@.subrange(0, piece.len() as int) =~= piece@);
        }
        if piece.len() > 0 && !same(piece, &dot) {
            if same(piece, &chars_of("..")) {
                return None;
            }
            return Some(slice(piece, 0, piece.len()));
        }
        proof {
            assert(rows(pieces@).take(i as int).drop_last() =~= rows(pieces@).take(i - 1));
        }
        i -= 1;
    }
    None
}

/// The shell's name, from the path that the variable `SHELL` holds.
pub fn shell_name(path: Option<&str>) -> (s: String)
    ensures
        s@ == shell(
            match path {
                Some(p) => Some(p@),
                None => None,
            },
        ),
        neat(s@),
{
    let name = match path {
        Some(p) => match base_name_of(&chars_of(p)) {
            Some(n) => cleaned(&n),
            None => None,
        },
        None => None,
    };
    match name {
        Some(n) => string_of(&n),
        None => {
            proof {
                reveal_strlit("sh");
            }
            DEFAULT_SHELL.to_owned()
        },
    }
}

/// The user's name: what the variable `USER` holds, else what `USERNAME`
/// holds, else `aperfetch`.
pub fn user_name(user: Option<&str>, username: Option<&str>) -> (s: String)
    ensures
        s@ == match user {
            Some(u) => u@,
            None => match username {
                Some(u) => u@,
                None => DEFAULT_USER@,
            },
        },
{
    match user {
        Some(u) => u.to_owned(),
        None => match username {
            Some(u) => u.to_owned(),
            None => DEFAULT_USER.to_owned(),
        },
    }
}

/// The number of processors as shown.
pub fn get_cpu_count(count: usize) -> (s: String)
    ensures
        s@ == decimal(count as nat),
        neat(s@),
{
    let mut out: Vec<char> = Vec::new();
    push_decimal(&mut out, count as u64);
    proof {
        lemma_decimal_digits(count as nat);
        assert(out@ =~= decimal(count as nat));
    }
    string_of(&out)
}

} // verus!
