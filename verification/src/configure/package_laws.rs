//! What installing the chosen packages amounts to: which packages the target gets, who
//! builds those that are built, and how their services are defined.
use vstd::prelude::*;

use crate::config::model::DeploymentConfig;
use crate::config::options::{GpuDriverVendor, InitSystem, NetworkBackend};
use crate::configure::package_texts;
use crate::configure::packages;
use crate::effects;
use crate::plan::Act;
use crate::text;
use crate::text::Text;

verus! {

// ------------------------------------------------------------- from the repositories
/// The words tell pacman to install the package.
pub open spec fn asks_for(words: Seq<Text>, package: Text) -> bool {
    words.len() > 4 && words.take(4) == effects::installing() && words.skip(4).contains(package)
}

/// The step has pacman install the package in the target.
pub open spec fn gives(a: Act, root: Text, package: Text) -> bool {
    a matches Act::Pacman { root: r, command } && r == root && asks_for(
        text::words_of(command),
        package,
    )
}

/// The target gets the package out of the repositories.
pub open spec fn gets(acts: Seq<Act>, root: Text, package: Text) -> bool {
    exists|i: int| 0 <= i < acts.len() && gives(#[trigger] acts[i], root, package)
}

proof fn lemma_gets(root: Text, names: Seq<Text>)
    requires
        names.len() > 0,
        effects::single_words(names),
    ensures
        forall|p: Text| gets(packages::package_steps(root, names), root, p) <==> #[trigger] names.contains(p),
{
    let steps = packages::package_steps(root, names);
    let command = packages::install_command(names);
    effects::lemma_installing(names);
    let words = text::words_of(command);
    assert(words.len() == 4 + names.len());
    assert forall|p: Text| gets(steps, root, p) <==> #[trigger] names.contains(p) by {
        assert(gives(steps[1], root, p) <==> names.contains(p));
        assert(!gives(steps[0], root, p));
    }
}

proof fn lemma_gets_sum(a: Seq<Act>, b: Seq<Act>, root: Text, p: Text)
    ensures
        gets(a + b, root, p) <==> gets(a, root, p) || gets(b, root, p),
{
    let s = a + b;
    if gets(a, root, p) {
        let i = choose|i: int| 0 <= i < a.len() && gives(#[trigger] a[i], root, p);
        assert(s[i] == a[i]);
    }
    if gets(b, root, p) {
        let i = choose|i: int| 0 <= i < b.len() && gives(#[trigger] b[i], root, p);
        assert(s[a.len() + i] == b[i]);
    }
    if gets(s, root, p) {
        let i = choose|i: int| 0 <= i < s.len() && gives(#[trigger] s[i], root, p);
        if i < a.len() {
            assert(s[i] == a[i]);
        } else {
            assert(s[i] == b[i - a.len()]);
        }
    }
}

proof fn lemma_vendor_members(vendors: Seq<GpuDriverVendor>, own_kernel: bool, p: Text)
    ensures
        packages::all_vendor_packages(vendors, own_kernel).contains(p) <==> {
            ||| vendors.contains(GpuDriverVendor::Nvidia) && packages::nvidia_packages_list(
                own_kernel,
            ).contains(p)
            ||| vendors.contains(GpuDriverVendor::Amd) && packages::amd_packages_list().contains(p)
            ||| vendors.contains(GpuDriverVendor::Intel) && packages::intel_packages_list().contains(
                p,
            )
        },
    decreases vendors.len(),
{
    if vendors.len() > 0 {
        let init = vendors.drop_last();
        lemma_vendor_members(init, own_kernel, p);
        effects::lemma_sum_contains(
            packages::all_vendor_packages(init, own_kernel),
            packages::vendor_packages(vendors.last(), own_kernel),
            p,
        );
        assert forall|v: GpuDriverVendor|
            #[trigger] vendors.contains(v) <==> init.contains(v) || v == vendors.last() by {
            if init.contains(v) {
                let k = choose|k: int| 0 <= k < init.len() && init[k] == v;
                assert(vendors[k] == v);
            }
            if vendors.contains(v) && v != vendors.last() {
                let k = choose|k: int| 0 <= k < vendors.len() && vendors[k] == v;
                assert(init[k] == v);
            }
            assert(vendors[vendors.len() - 1] == vendors.last());
        }
    }
}

proof fn lemma_vendor_words(vendors: Seq<GpuDriverVendor>, own_kernel: bool)
    ensures
        effects::single_words(packages::all_vendor_packages(vendors, own_kernel)),
        vendors.len() > 0 ==> packages::all_vendor_packages(vendors, own_kernel).len() > 0,
    decreases vendors.len(),
{
    if vendors.len() > 0 {
        let init = vendors.drop_last();
        lemma_vendor_words(init, own_kernel);
        lemma_lists();
        let a = packages::all_vendor_packages(init, own_kernel);
        let b = packages::vendor_packages(vendors.last(), own_kernel);
        let s = a + b;
        assert(effects::single_words(b) && b.len() > 0);
        assert forall|i: int| 0 <= i < s.len() implies effects::one_word(#[trigger] s[i]) by {
            if i < a.len() {
                assert(s[i] == a[i]);
            } else {
                assert(s[i] == b[i - a.len()]);
            }
        }
    }
}

proof fn lemma_lists()
    ensures
        effects::single_words(packages::nvidia_packages_list(true)),
        effects::single_words(packages::nvidia_packages_list(false)),
        effects::single_words(packages::amd_packages_list()),
        effects::single_words(packages::intel_packages_list()),
{
    reveal_strlit("nvidia-dkms");
    reveal_strlit("nvidia");
    reveal_strlit("nvidia-utils");
    reveal_strlit("linux-firmware-nvidia");
    reveal_strlit("linux-firmware-amdgpu");
    reveal_strlit("mesa");
    reveal_strlit("vulkan-headers");
    reveal_strlit("vulkan-icd-loader");
    reveal_strlit("vulkan-mesa-implicit-layers");
    reveal_strlit("vulkan-mesa-layers");
    reveal_strlit("vulkan-radeon");
    reveal_strlit("vulkan-tools");
    reveal_strlit("vulkan-validation-layers");
    reveal_strlit("vulkan-utility-libraries");
    reveal_strlit("xf86-video-amdgpu");
    reveal_strlit("linux-firmware-intel");
    reveal_strlit("vulkan-intel");
    reveal_strlit("intel-media-driver");
    reveal_strlit("xf86-video-intel");
}

proof fn lemma_nvidia_dkms()
    ensures
        packages::nvidia_packages_list(true).contains("nvidia-dkms"@) == true,
        packages::nvidia_packages_list(false).contains("nvidia-dkms"@) == false,
        packages::amd_packages_list().contains("nvidia-dkms"@) == false,
        packages::intel_packages_list().contains("nvidia-dkms"@) == false,
{
    reveal_strlit("nvidia-dkms");
    reveal_strlit("nvidia");
    reveal_strlit("nvidia-utils");
    reveal_strlit("linux-firmware-nvidia");
    reveal_strlit("linux-firmware-amdgpu");
    reveal_strlit("mesa");
    reveal_strlit("vulkan-headers");
    reveal_strlit("vulkan-icd-loader");
    reveal_strlit("vulkan-mesa-implicit-layers");
    reveal_strlit("vulkan-mesa-layers");
    reveal_strlit("vulkan-radeon");
    reveal_strlit("vulkan-tools");
    reveal_strlit("vulkan-validation-layers");
    reveal_strlit("vulkan-utility-libraries");
    reveal_strlit("xf86-video-amdgpu");
    reveal_strlit("linux-firmware-intel");
    reveal_strlit("vulkan-intel");
    reveal_strlit("intel-media-driver");
    reveal_strlit("xf86-video-intel");
    assert(packages::nvidia_packages_list(true)[0] == "nvidia-dkms"@);
}

proof fn lemma_nvidia()
    ensures
        packages::nvidia_packages_list(true).contains("nvidia"@) == false,
        packages::nvidia_packages_list(false).contains("nvidia"@) == true,
        packages::amd_packages_list().contains("nvidia"@) == false,
        packages::intel_packages_list().contains("nvidia"@) == false,
{
    reveal_strlit("nvidia");
    reveal_strlit("nvidia-dkms");
    reveal_strlit("nvidia-utils");
    reveal_strlit("linux-firmware-nvidia");
    reveal_strlit("linux-firmware-amdgpu");
    reveal_strlit("mesa");
    reveal_strlit("vulkan-headers");
    reveal_strlit("vulkan-icd-loader");
    reveal_strlit("vulkan-mesa-implicit-layers");
    reveal_strlit("vulkan-mesa-layers");
    reveal_strlit("vulkan-radeon");
    reveal_strlit("vulkan-tools");
    reveal_strlit("vulkan-validation-layers");
    reveal_strlit("vulkan-utility-libraries");
    reveal_strlit("xf86-video-amdgpu");
    reveal_strlit("linux-firmware-intel");
    reveal_strlit("vulkan-intel");
    reveal_strlit("intel-media-driver");
    reveal_strlit("xf86-video-intel");
    assert(packages::nvidia_packages_list(false)[0] == "nvidia"@);
}

proof fn lemma_nvidia_utils()
    ensures
        packages::nvidia_packages_list(true).contains("nvidia-utils"@) == true,
        packages::nvidia_packages_list(false).contains("nvidia-utils"@) == true,
        packages::amd_packages_list().contains("nvidia-utils"@) == false,
        packages::intel_packages_list().contains("nvidia-utils"@) == false,
{
    reveal_strlit("nvidia-utils");
    reveal_strlit("nvidia-dkms");
    reveal_strlit("nvidia");
    reveal_strlit("linux-firmware-nvidia");
    reveal_strlit("linux-firmware-amdgpu");
    reveal_strlit("mesa");
    reveal_strlit("vulkan-headers");
    reveal_strlit("vulkan-icd-loader");
    reveal_strlit("vulkan-mesa-implicit-layers");
    reveal_strlit("vulkan-mesa-layers");
    reveal_strlit("vulkan-radeon");
    reveal_strlit("vulkan-tools");
    reveal_strlit("vulkan-validation-layers");
    reveal_strlit("vulkan-utility-libraries");
    reveal_strlit("xf86-video-amdgpu");
    reveal_strlit("linux-firmware-intel");
    reveal_strlit("vulkan-intel");
    reveal_strlit("intel-media-driver");
    reveal_strlit("xf86-video-intel");
    assert("nvidia-utils"@[0] == 'n' && "vulkan-tools"@[0] == 'v');
    assert("nvidia-utils"@[0] == 'n' && "vulkan-intel"@[0] == 'v');
    assert(packages::nvidia_packages_list(true)[1] == "nvidia-utils"@);
    assert(packages::nvidia_packages_list(false)[1] == "nvidia-utils"@);
}

proof fn lemma_linux_firmware_amdgpu()
    ensures
        packages::nvidia_packages_list(true).contains("linux-firmware-amdgpu"@) == false,
        packages::nvidia_packages_list(false).contains("linux-firmware-amdgpu"@) == false,
        packages::amd_packages_list().contains("linux-firmware-amdgpu"@) == true,
        packages::intel_packages_list().contains("linux-firmware-amdgpu"@) == false,
{
    reveal_strlit("linux-firmware-amdgpu");
    reveal_strlit("nvidia-dkms");
    reveal_strlit("nvidia");
    reveal_strlit("nvidia-utils");
    reveal_strlit("linux-firmware-nvidia");
    reveal_strlit("mesa");
    reveal_strlit("vulkan-headers");
    reveal_strlit("vulkan-icd-loader");
    reveal_strlit("vulkan-mesa-implicit-layers");
    reveal_strlit("vulkan-mesa-layers");
    reveal_strlit("vulkan-radeon");
    reveal_strlit("vulkan-tools");
    reveal_strlit("vulkan-validation-layers");
    reveal_strlit("vulkan-utility-libraries");
    reveal_strlit("xf86-video-amdgpu");
    reveal_strlit("linux-firmware-intel");
    reveal_strlit("vulkan-intel");
    reveal_strlit("intel-media-driver");
    reveal_strlit("xf86-video-intel");
    assert("linux-firmware-amdgpu"@[15] == 'a' && "linux-firmware-nvidia"@[15] == 'n');
    assert(packages::amd_packages_list()[0] == "linux-firmware-amdgpu"@);
}

proof fn lemma_vulkan_radeon()
    ensures
        packages::nvidia_packages_list(true).contains("vulkan-radeon"@) == false,
        packages::nvidia_packages_list(false).contains("vulkan-radeon"@) == false,
        packages::amd_packages_list().contains("vulkan-radeon"@) == true,
        packages::intel_packages_list().contains("vulkan-radeon"@) == false,
{
    reveal_strlit("vulkan-radeon");
    reveal_strlit("nvidia-dkms");
    reveal_strlit("nvidia");
    reveal_strlit("nvidia-utils");
    reveal_strlit("linux-firmware-nvidia");
    reveal_strlit("linux-firmware-amdgpu");
    reveal_strlit("mesa");
    reveal_strlit("vulkan-headers");
    reveal_strlit("vulkan-icd-loader");
    reveal_strlit("vulkan-mesa-implicit-layers");
    reveal_strlit("vulkan-mesa-layers");
    reveal_strlit("vulkan-tools");
    reveal_strlit("vulkan-validation-layers");
    reveal_strlit("vulkan-utility-libraries");
    reveal_strlit("xf86-video-amdgpu");
    reveal_strlit("linux-firmware-intel");
    reveal_strlit("vulkan-intel");
    reveal_strlit("intel-media-driver");
    reveal_strlit("xf86-video-intel");
    assert(packages::amd_packages_list()[6] == "vulkan-radeon"@);
}

proof fn lemma_mesa()
    ensures
        packages::nvidia_packages_list(true).contains("mesa"@) == false,
        packages::nvidia_packages_list(false).contains("mesa"@) == false,
        packages::amd_packages_list().contains("mesa"@) == true,
        packages::intel_packages_list().contains("mesa"@) == true,
{
    reveal_strlit("mesa");
    reveal_strlit("nvidia-dkms");
    reveal_strlit("nvidia");
    reveal_strlit("nvidia-utils");
    reveal_strlit("linux-firmware-nvidia");
    reveal_strlit("linux-firmware-amdgpu");
    reveal_strlit("vulkan-headers");
    reveal_strlit("vulkan-icd-loader");
    reveal_strlit("vulkan-mesa-implicit-layers");
    reveal_strlit("vulkan-mesa-layers");
    reveal_strlit("vulkan-radeon");
    reveal_strlit("vulkan-tools");
    reveal_strlit("vulkan-validation-layers");
    reveal_strlit("vulkan-utility-libraries");
    reveal_strlit("xf86-video-amdgpu");
    reveal_strlit("linux-firmware-intel");
    reveal_strlit("vulkan-intel");
    reveal_strlit("intel-media-driver");
    reveal_strlit("xf86-video-intel");
    assert(packages::amd_packages_list()[1] == "mesa"@);
    assert(packages::intel_packages_list()[2] == "mesa"@);
}

proof fn lemma_linux_firmware_intel()
    ensures
        packages::nvidia_packages_list(true).contains("linux-firmware-intel"@) == false,
        packages::nvidia_packages_list(false).contains("linux-firmware-intel"@) == false,
        packages::amd_packages_list().contains("linux-firmware-intel"@) == false,
        packages::intel_packages_list().contains("linux-firmware-intel"@) == true,
{
    reveal_strlit("linux-firmware-intel");
    reveal_strlit("nvidia-dkms");
    reveal_strlit("nvidia");
    reveal_strlit("nvidia-utils");
    reveal_strlit("linux-firmware-nvidia");
    reveal_strlit("linux-firmware-amdgpu");
    reveal_strlit("mesa");
    reveal_strlit("vulkan-headers");
    reveal_strlit("vulkan-icd-loader");
    reveal_strlit("vulkan-mesa-implicit-layers");
    reveal_strlit("vulkan-mesa-layers");
    reveal_strlit("vulkan-radeon");
    reveal_strlit("vulkan-tools");
    reveal_strlit("vulkan-validation-layers");
    reveal_strlit("vulkan-utility-libraries");
    reveal_strlit("xf86-video-amdgpu");
    reveal_strlit("vulkan-intel");
    reveal_strlit("intel-media-driver");
    reveal_strlit("xf86-video-intel");
    assert(packages::intel_packages_list()[0] == "linux-firmware-intel"@);
}

proof fn lemma_vulkan_intel()
    ensures
        packages::nvidia_packages_list(true).contains("vulkan-intel"@) == false,
        packages::nvidia_packages_list(false).contains("vulkan-intel"@) == false,
        packages::amd_packages_list().contains("vulkan-intel"@) == false,
        packages::intel_packages_list().contains("vulkan-intel"@) == true,
{
    reveal_strlit("vulkan-intel");
    reveal_strlit("nvidia-dkms");
    reveal_strlit("nvidia");
    reveal_strlit("nvidia-utils");
    reveal_strlit("linux-firmware-nvidia");
    reveal_strlit("linux-firmware-amdgpu");
    reveal_strlit("mesa");
    reveal_strlit("vulkan-headers");
    reveal_strlit("vulkan-icd-loader");
    reveal_strlit("vulkan-mesa-implicit-layers");
    reveal_strlit("vulkan-mesa-layers");
    reveal_strlit("vulkan-radeon");
    reveal_strlit("vulkan-tools");
    reveal_strlit("vulkan-validation-layers");
    reveal_strlit("vulkan-utility-libraries");
    reveal_strlit("xf86-video-amdgpu");
    reveal_strlit("linux-firmware-intel");
    reveal_strlit("intel-media-driver");
    reveal_strlit("xf86-video-intel");
    assert("vulkan-intel"@[0] == 'v' && "nvidia-utils"@[0] == 'n');
    assert("vulkan-intel"@[7] == 'i' && "vulkan-tools"@[7] == 't');
    assert(packages::intel_packages_list()[1] == "vulkan-intel"@);
}

/// The drivers are those of the chosen vendors and of no other; NVIDIA's is the one that is
/// built along with the kernel exactly where that is not the stock kernel.
pub proof fn drivers_suit_the_hardware(config: DeploymentConfig, root: Text)
    ensures
        ({
            let steps = packages::install_gpu_drivers_steps(config, root, false);
            let chosen = config.packages.gpu_drivers@;
            let nvidia = chosen.contains(GpuDriverVendor::Nvidia);
            let amd = chosen.contains(GpuDriverVendor::Amd);
            let intel = chosen.contains(GpuDriverVendor::Intel);
            let own_kernel = config.packages.install_tkg_kernel;
            &&& gets(steps, root, "nvidia-dkms"@) <==> nvidia && own_kernel
            &&& gets(steps, root, "nvidia"@) <==> nvidia && !own_kernel
            &&& gets(steps, root, "nvidia-utils"@) <==> nvidia
            &&& gets(steps, root, "linux-firmware-amdgpu"@) <==> amd
            &&& gets(steps, root, "vulkan-radeon"@) <==> amd
            &&& gets(steps, root, "linux-firmware-intel"@) <==> intel
            &&& gets(steps, root, "vulkan-intel"@) <==> intel
            &&& gets(steps, root, "mesa"@) <==> amd || intel
        }),
{
    let steps = packages::install_gpu_drivers_steps(config, root, false);
    let chosen = config.packages.gpu_drivers@;
    let own_kernel = config.packages.install_tkg_kernel;
    let all = packages::all_vendor_packages(chosen, own_kernel);
    let names = packages::gpu_packages(chosen, own_kernel);
    text::arranging_keeps_the_members(all);
    lemma_vendor_words(chosen, own_kernel);
    assert forall|i: int| 0 <= i < names.len() implies effects::one_word(#[trigger] names[i]) by {
        assert(names.contains(names[i]));
        let k = choose|k: int| 0 <= k < all.len() && all[k] == names[i];
        assert(effects::one_word(all[k]));
    }
    if chosen.len() > 0 {
        assert(all.contains(all[0]));
        assert(names.contains(all[0]));
        lemma_gets(root, names);
    }
    lemma_nvidia_dkms();
    lemma_vendor_members(chosen, own_kernel, "nvidia-dkms"@);
    assert(names.contains("nvidia-dkms"@) <==> all.contains("nvidia-dkms"@));
    lemma_nvidia();
    lemma_vendor_members(chosen, own_kernel, "nvidia"@);
    assert(names.contains("nvidia"@) <==> all.contains("nvidia"@));
    lemma_nvidia_utils();
    lemma_vendor_members(chosen, own_kernel, "nvidia-utils"@);
    assert(names.contains("nvidia-utils"@) <==> all.contains("nvidia-utils"@));
    lemma_linux_firmware_amdgpu();
    lemma_vendor_members(chosen, own_kernel, "linux-firmware-amdgpu"@);
    assert(names.contains("linux-firmware-amdgpu"@) <==> all.contains("linux-firmware-amdgpu"@));
    lemma_vulkan_radeon();
    lemma_vendor_members(chosen, own_kernel, "vulkan-radeon"@);
    assert(names.contains("vulkan-radeon"@) <==> all.contains("vulkan-radeon"@));
    lemma_mesa();
    lemma_vendor_members(chosen, own_kernel, "mesa"@);
    assert(names.contains("mesa"@) <==> all.contains("mesa"@));
    lemma_linux_firmware_intel();
    lemma_vendor_members(chosen, own_kernel, "linux-firmware-intel"@);
    assert(names.contains("linux-firmware-intel"@) <==> all.contains("linux-firmware-intel"@));
    lemma_vulkan_intel();
    lemma_vendor_members(chosen, own_kernel, "vulkan-intel"@);
    assert(names.contains("vulkan-intel"@) <==> all.contains("vulkan-intel"@));
}

proof fn lemma_drivers_32(vendors: Seq<GpuDriverVendor>)
    ensures
        effects::single_words(packages::lib32_list(vendors)),
        packages::lib32_list(vendors).contains("lib32-nvidia-utils"@) <==> vendors.contains(
            GpuDriverVendor::Nvidia,
        ),
        packages::lib32_list(vendors).contains("lib32-vulkan-radeon"@) <==> vendors.contains(
            GpuDriverVendor::Amd,
        ),
        packages::lib32_list(vendors).contains("lib32-vulkan-intel"@) <==> vendors.contains(
            GpuDriverVendor::Intel,
        ),
        !packages::lib32_list(vendors).contains("steam"@),
{
    let all = vendors.map_values(|v: GpuDriverVendor| packages::lib32_package(v));
    let names = packages::lib32_list(vendors);
    text::arranging_keeps_the_members(all);
    reveal_strlit("lib32-nvidia-utils");
    reveal_strlit("lib32-vulkan-radeon");
    reveal_strlit("lib32-vulkan-intel");
    reveal_strlit("steam");
    assert("lib32-nvidia-utils"@[6] == 'n' && "lib32-vulkan-intel"@[6] == 'v');
    assert forall|v: GpuDriverVendor| vendors.contains(v) <==> names.contains(
        #[trigger] packages::lib32_package(v),
    ) by {
        if vendors.contains(v) {
            let k = choose|k: int| 0 <= k < vendors.len() && vendors[k] == v;
            assert(all[k] == packages::lib32_package(v));
            assert(all.contains(packages::lib32_package(v)));
        }
        if names.contains(packages::lib32_package(v)) {
            assert(all.contains(packages::lib32_package(v)));
            let k = choose|k: int| 0 <= k < all.len() && all[k] == packages::lib32_package(v);
            assert(packages::lib32_package(vendors[k]) == packages::lib32_package(v));
            assert(vendors[k] == v);
        }
    }
    assert(packages::lib32_package(GpuDriverVendor::Nvidia) == "lib32-nvidia-utils"@);
    assert(packages::lib32_package(GpuDriverVendor::Amd) == "lib32-vulkan-radeon"@);
    assert(packages::lib32_package(GpuDriverVendor::Intel) == "lib32-vulkan-intel"@);
    assert forall|i: int| 0 <= i < names.len() implies effects::one_word(#[trigger] names[i]) by {
        assert(names.contains(names[i]));
        let k = choose|k: int| 0 <= k < all.len() && all[k] == names[i];
        assert(all[k] == packages::lib32_package(vendors[k]));
    }
    if names.contains("steam"@) {
        assert(all.contains("steam"@));
        let k = choose|k: int| 0 <= k < all.len() && all[k] == "steam"@;
        assert(all[k] == packages::lib32_package(vendors[k]));
    }
}

/// With Steam come the 32-bit drivers of the chosen vendors and of no other, once the
/// repository that has them is switched on and read; where games were not chosen, nothing.
pub proof fn games_get_their_drivers(config: DeploymentConfig, root: Text)
    ensures
        ({
            let steps = packages::install_gaming_packages_steps(config, root, false);
            let chosen = config.packages.gpu_drivers@;
            let wanted = config.packages.install_gaming;
            &&& gets(steps, root, "steam"@) <==> wanted
            &&& gets(steps, root, "lib32-nvidia-utils"@) <==> wanted && chosen.contains(
                GpuDriverVendor::Nvidia,
            )
            &&& gets(steps, root, "lib32-vulkan-radeon"@) <==> wanted && chosen.contains(
                GpuDriverVendor::Amd,
            )
            &&& gets(steps, root, "lib32-vulkan-intel"@) <==> wanted && chosen.contains(
                GpuDriverVendor::Intel,
            )
            &&& !wanted ==> steps.len() == 0
            &&& wanted ==> {
                &&& steps.len() >= 4
                &&& steps[0] matches Act::Chroot { root: r, command } && r == root && text::begins(
                    command,
                    "sed -i "@,
                ) && text::holds(command, "[lib32"@) && text::ends(command, " /etc/pacman.conf"@)
                &&& steps[1] matches Act::Chroot { root: r, command } && r == root
                    && text::words_of(command) == seq!["pacman"@, "-Sy"@, "--noconfirm"@]
            }
        }),
{
    let steps = packages::install_gaming_packages_steps(config, root, false);
    let chosen = config.packages.gpu_drivers@;
    if config.packages.install_gaming {
        let drivers = packages::lib32_list(chosen);
        let first = seq![
            Act::Chroot { root, command: packages::ENABLE_LIB32@ },
            Act::Chroot { root, command: "pacman -Sy --noconfirm"@ },
        ];
        let second = if drivers.len() > 0 {
            packages::package_steps(root, drivers)
        } else {
            seq![]
        };
        let third = packages::package_steps(root, packages::gaming_packages_list());
        assert(steps == first + second + third);
        lemma_drivers_32(chosen);
        if drivers.len() > 0 {
            lemma_gets(root, drivers);
        }
        lemma_steam();
        lemma_gets(root, packages::gaming_packages_list());
        lemma_refreshed();
        lemma_switched_on();
        lemma_three(first, second, third, root, "steam"@);
        lemma_three(first, second, third, root, "lib32-nvidia-utils"@);
        lemma_three(first, second, third, root, "lib32-vulkan-radeon"@);
        lemma_three(first, second, third, root, "lib32-vulkan-intel"@);
        assert(forall|p: Text| !gives(first[0], root, p) && !#[trigger] gives(first[1], root, p));
    }
}

proof fn lemma_three(a: Seq<Act>, b: Seq<Act>, c: Seq<Act>, root: Text, p: Text)
    ensures
        gets(a + b + c, root, p) <==> gets(a, root, p) || gets(b, root, p) || gets(c, root, p),
{
    lemma_gets_sum(a, b, root, p);
    lemma_gets_sum(a + b, c, root, p);
}

proof fn lemma_steam()
    ensures
        effects::single_words(packages::gaming_packages_list()),
        packages::gaming_packages_list().contains("steam"@),
        !packages::gaming_packages_list().contains("lib32-nvidia-utils"@),
        !packages::gaming_packages_list().contains("lib32-vulkan-radeon"@),
        !packages::gaming_packages_list().contains("lib32-vulkan-intel"@),
{
    reveal_strlit("steam");
    reveal_strlit("lib32-nvidia-utils");
    reveal_strlit("lib32-vulkan-radeon");
    reveal_strlit("lib32-vulkan-intel");
    assert(packages::gaming_packages_list()[0] == "steam"@);
}

proof fn lemma_refreshed()
    ensures
        text::words_of("pacman -Sy --noconfirm"@) == seq!["pacman"@, "-Sy"@, "--noconfirm"@],
{
    let words = seq!["pacman"@, "-Sy"@, "--noconfirm"@];
    reveal_strlit("pacman -Sy --noconfirm");
    reveal_strlit("pacman");
    reveal_strlit("-Sy");
    reveal_strlit("--noconfirm");
    reveal_strlit(" ");
    reveal_with_fuel(text::joined, 4);
    assert(words.drop_last().drop_last() =~= seq!["pacman"@]);
    assert(text::joined(words, " "@) =~= "pacman -Sy --noconfirm"@);
    effects::lemma_words_joined(words);
}

proof fn lemma_switched_on()
    ensures
        text::begins(packages::ENABLE_LIB32@, "sed -i "@),
        text::holds(packages::ENABLE_LIB32@, "[lib32"@),
        text::ends(packages::ENABLE_LIB32@, " /etc/pacman.conf"@),
{
    reveal_strlit("sed -i '/^#\\[lib32\\]/,/^#Include/ s/^#//' /etc/pacman.conf");
    reveal_strlit("sed -i ");
    reveal_strlit("[lib32");
    reveal_strlit(" /etc/pacman.conf");
    let s = packages::ENABLE_LIB32@;
    assert(s.subrange(0, 7) =~= "sed -i "@);
    assert(s.subrange(12, 18) =~= "[lib32"@);
    assert(text::at(s, 12, "[lib32"@));
    assert(s.subrange(s.len() - 17, s.len() as int) =~= " /etc/pacman.conf"@);
}

/// Wine comes from a repository that is made known to pacman, with its keys, and read before.
pub proof fn wine_is_found(config: DeploymentConfig, root: Text)
    ensures
        ({
            let steps = packages::install_wine_packages_steps(config, root, false);
            &&& !config.packages.install_wine ==> steps.len() == 0
            &&& config.packages.install_wine ==> exists|i: int, j: int, k: int|
                {
                    &&& 0 <= i < j < k < steps.len()
                    &&& gives(#[trigger] steps[k], root, "wine"@)
                    &&& gives(steps[k], root, "winetricks"@)
                    &&& gives(steps[k], root, "vkd3d"@)
                    &&& #[trigger] steps[i] == (Act::AddRepo { root })
                    &&& #[trigger] steps[j] matches Act::Chroot { root: r, command } && r == root
                        && text::words_of(command) == seq!["pacman"@, "-Sy"@, "--noconfirm"@]
                }
        }),
{
    if config.packages.install_wine {
        let steps = packages::install_wine_packages_steps(config, root, false);
        let names = packages::wine_packages_list();
        reveal_strlit("wine");
        reveal_strlit("vkd3d");
        reveal_strlit("winetricks");
        reveal_strlit("wine-mono");
        reveal_strlit("wine-gecko");
        assert(effects::single_words(names));
        assert(names[0] == "wine"@ && names[1] == "vkd3d"@ && names[2] == "winetricks"@);
        effects::lemma_installing(names);
        lemma_refreshed();
        let words = text::words_of(packages::install_command(names));
        assert(words.len() == 9);
        assert(steps[6] == packages::package_steps(root, names)[1]);
        assert(gives(steps[6], root, "wine"@));
        assert(steps[3] == (Act::AddRepo { root }));
        assert(steps[4] == (Act::Chroot { root, command: "pacman -Sy --noconfirm"@ }));
    }
}

// -------------------------------------------------------------------- built by the user
/// The words with which the user is made to install packages that are built.
pub open spec fn as_user(user: Text) -> Seq<Text> {
    seq!["sudo"@, "-u"@, user, "yay"@, "-S"@, "--noconfirm"@, "--needed"@]
}

/// The step has the package built and installed in the target by the user.
pub open spec fn has_built(a: Act, root: Text, user: Text, package: Text) -> bool {
    a matches Act::Chroot { root: r, command } && r == root && text::words_of(command).len() > 7
        && text::words_of(command).take(7) == as_user(user) && text::words_of(command).skip(
        7,
    ).contains(package)
}

/// One of the steps has the package built by the user.
pub open spec fn builds(acts: Seq<Act>, root: Text, user: Text, package: Text) -> bool {
    exists|i: int| 0 <= i < acts.len() && has_built(#[trigger] acts[i], root, user, package)
}

proof fn lemma_built(root: Text, user: Text, names: Seq<Text>)
    requires
        effects::one_word(user),
        effects::single_words(names),
        names.len() > 0,
    ensures
        forall|p: Text|
            has_built(
                Act::Chroot {
                    root,
                    command: packages::yay_command(user, text::joined(names, " "@)),
                },
                root,
                user,
                p,
            ) <==> #[trigger] names.contains(p),
{
    let head = as_user(user);
    let all = head + names;
    let command = packages::yay_command(user, text::joined(names, " "@));
    assert(text::joined(all, " "@) == command) by {
        effects::lemma_joined_sum(head, names, " "@);
        lemma_head(user);
        assert(text::joined(all, " "@) =~= (text::joined(head, " "@) + " "@) + text::joined(
            names,
            " "@,
        ));
    }
    assert(effects::single_words(head)) by {
        reveal_strlit("sudo");
        reveal_strlit("-u");
        reveal_strlit("yay");
        reveal_strlit("-S");
        reveal_strlit("--noconfirm");
        reveal_strlit("--needed");
    }
    assert forall|i: int| 0 <= i < all.len() implies effects::one_word(#[trigger] all[i]) by {
        if i < 7 {
            assert(all[i] == head[i]);
        } else {
            assert(all[i] == names[i - 7]);
        }
    }
    effects::lemma_words_joined(all);
    assert(all.take(7) =~= head);
    assert(all.skip(7) =~= names);
}

proof fn lemma_head(user: Text)
    ensures
        text::joined(as_user(user), " "@) + " "@ == "sudo -u "@ + user
            + " yay -S --noconfirm --needed "@,
{
    let head = as_user(user);
    reveal_strlit("sudo");
    reveal_strlit("-u");
    reveal_strlit("yay");
    reveal_strlit("-S");
    reveal_strlit("--noconfirm");
    reveal_strlit("--needed");
    reveal_strlit(" ");
    reveal_strlit("sudo -u ");
    reveal_strlit(" yay -S --noconfirm --needed ");
    reveal_with_fuel(text::joined, 8);
    assert(head.drop_last().drop_last().drop_last().drop_last().drop_last().drop_last()
        =~= seq!["sudo"@]);
    assert(text::joined(head, " "@) + " "@ =~= "sudo -u "@ + user
        + " yay -S --noconfirm --needed "@);
}

proof fn lemma_built_alone(root: Text, user: Text, package: Text)
    requires
        effects::one_word(user),
        effects::one_word(package),
    ensures
        has_built(
            Act::Chroot { root, command: packages::yay_command(user, package) },
            root,
            user,
            package,
        ),
{
    let names = seq![package];
    assert(names[0] == package);
    assert(text::joined(names, " "@) == package);
    lemma_built(root, user, names);
    assert(names.contains(package));
}

/// What has to be built is built by the user, where it was chosen; where it was not, nothing
/// is done.
pub proof fn user_builds_what_was_chosen(config: DeploymentConfig, root: Text)
    requires
        effects::one_word(config.user.name@),
    ensures
        ({
            let p = config.packages;
            let user = config.user.name@;
            let browser = packages::install_aur_packages_steps(config, root, false);
            let tools = packages::install_btrfs_tools_steps(config, root, false);
            let daemon = packages::install_hhd_steps(config, root, false);
            let decky = packages::install_decky_loader_steps(config, root, false);
            let motion = packages::install_evdevhook2_steps(config, root, false);
            &&& if p.install_yay && p.install_zen_browser {
                builds(browser, root, user, "zen-browser-bin"@)
            } else {
                browser.len() == 0
            }
            &&& if p.install_btrfs_tools {
                builds(tools, root, user, "snapper"@) && builds(
                    tools,
                    root,
                    user,
                    "btrfs-assistant"@,
                )
            } else {
                tools.len() == 0
            }
            &&& if p.install_hhd {
                builds(daemon, root, user, "hhd-git"@)
            } else {
                daemon.len() == 0
            }
            &&& if p.install_decky_loader {
                builds(decky, root, user, "decky-loader-bin"@)
            } else {
                decky.len() == 0
            }
            &&& if p.install_evdevhook2 {
                builds(motion, root, user, "evdevhook2-git"@)
            } else {
                motion.len() == 0
            }
        }),
{
    let user = config.user.name@;
    let browser = packages::install_aur_packages_steps(config, root, false);
    let tools = packages::install_btrfs_tools_steps(config, root, false);
    let daemon = packages::install_hhd_steps(config, root, false);
    let decky = packages::install_decky_loader_steps(config, root, false);
    let motion = packages::install_evdevhook2_steps(config, root, false);
    assert(effects::one_word("zen-browser-bin"@)) by {
        reveal_strlit("zen-browser-bin");
    }
    assert(effects::one_word("hhd-git"@)) by {
        reveal_strlit("hhd-git");
    }
    assert(effects::one_word("decky-loader-bin"@)) by {
        reveal_strlit("decky-loader-bin");
    }
    assert(effects::one_word("evdevhook2-git"@)) by {
        reveal_strlit("evdevhook2-git");
    }
    lemma_built_alone(root, user, "zen-browser-bin"@);
    lemma_built_alone(root, user, "hhd-git"@);
    lemma_built_alone(root, user, "decky-loader-bin"@);
    lemma_built_alone(root, user, "evdevhook2-git"@);
    let names = seq!["snapper"@, "btrfs-assistant"@];
    assert(effects::single_words(names)) by {
        reveal_strlit("snapper");
        reveal_strlit("btrfs-assistant");
    }
    assert(text::joined(names, " "@) == "snapper btrfs-assistant"@) by {
        reveal_strlit("snapper");
        reveal_strlit("btrfs-assistant");
        reveal_strlit("snapper btrfs-assistant");
        reveal_strlit(" ");
        reveal_with_fuel(text::joined, 3);
        assert(names.drop_last() =~= seq!["snapper"@]);
        assert(text::joined(names, " "@) =~= "snapper btrfs-assistant"@);
    }
    lemma_built(root, user, names);
    assert(names[0] == "snapper"@ && names[1] == "btrfs-assistant"@);
    assert(names.contains("snapper"@) && names.contains("btrfs-assistant"@));
    if config.packages.install_yay && config.packages.install_zen_browser {
        assert(has_built(browser[0], root, user, "zen-browser-bin"@));
    }
    if config.packages.install_btrfs_tools {
        assert(has_built(tools[0], root, user, "snapper"@));
        assert(has_built(tools[0], root, user, "btrfs-assistant"@));
    }
    if config.packages.install_hhd {
        assert(has_built(daemon[0], root, user, "hhd-git"@));
    }
    if config.packages.install_decky_loader {
        assert(has_built(decky[0], root, user, "decky-loader-bin"@));
    }
    if config.packages.install_evdevhook2 {
        assert(has_built(motion[0], root, user, "evdevhook2-git"@));
    }
}

/// The helper itself is built by the user, in a directory that was given to that user, out of
/// the tools that are there by then; afterwards the directory is gone.
pub proof fn helper_is_built_by_the_user(config: DeploymentConfig, root: Text)
    ensures
        ({
            let steps = packages::install_yay_steps(config, root, false);
            let user = config.user.name@;
            &&& !config.packages.install_yay ==> steps.len() == 0
            &&& config.packages.install_yay ==> {
                &&& steps.len() > 0
                &&& gets(steps.drop_last(), root, "go"@)
                &&& gets(steps.drop_last(), root, "git"@)
                &&& gets(steps.drop_last(), root, "base-devel"@)
                &&& steps.last() matches Act::Chroot { root: r, command } && r == root
                    && text::begins(
                    command,
                    "mkdir -p /tmp/yay-build && chown "@ + user + ":"@ + user
                        + " /tmp/yay-build && sudo -u "@ + user + " bash -c 'cd /tmp/yay-build && "@,
                ) && text::holds(command, "git clone https://aur.archlinux.org/yay.git"@)
                    && text::holds(command, " makepkg -si --noconfirm'"@) && text::ends(
                    command,
                    " && rm -rf /tmp/yay-build"@,
                )
            }
        }),
{
    if config.packages.install_yay {
        let steps = packages::install_yay_steps(config, root, false);
        let user = config.user.name@;
        let names = packages::yay_build_packages_list();
        assert(effects::single_words(names)) by {
            reveal_strlit("go");
            reveal_strlit("git");
            reveal_strlit("base-devel");
        }
        assert(names[0] == "go"@ && names[1] == "git"@ && names[2] == "base-devel"@);
        assert(names.contains("go"@) && names.contains("git"@) && names.contains("base-devel"@));
        lemma_gets(root, names);
        assert(steps.drop_last() =~= packages::package_steps(root, names));
        lemma_helper_text(user);
    }
}

proof fn lemma_helper_text(user: Text)
    ensures
        ({
            let command = package_texts::yay_build_text(user);
            &&& text::begins(
                command,
                "mkdir -p /tmp/yay-build && chown "@ + user + ":"@ + user
                    + " /tmp/yay-build && sudo -u "@ + user + " bash -c 'cd /tmp/yay-build && "@,
            )
            &&& text::holds(command, "git clone https://aur.archlinux.org/yay.git"@)
            &&& text::holds(command, " makepkg -si --noconfirm'"@)
            &&& text::ends(command, " && rm -rf /tmp/yay-build"@)
        }),
{
    let a = package_texts::YAY_BUILD_1@ + user + ":"@ + user + " /tmp/yay-build && sudo -u "@ + user;
    let b = package_texts::YAY_BUILD_2@;
    let command = package_texts::yay_build_text(user);
    assert(command =~= a + b);
    reveal_strlit("mkdir -p /tmp/yay-build && chown ");
    reveal_strlit(
        " bash -c 'cd /tmp/yay-build && git clone https://aur.archlinux.org/yay.git && cd yay && makepkg -si --noconfirm' && rm -rf /tmp/yay-build",
    );
    reveal_strlit(" bash -c 'cd /tmp/yay-build && ");
    reveal_strlit("git clone https://aur.archlinux.org/yay.git");
    reveal_strlit(" makepkg -si --noconfirm'");
    reveal_strlit(" && rm -rf /tmp/yay-build");
    assert(b.subrange(0, 31) =~= " bash -c 'cd /tmp/yay-build && "@);
    assert(b.subrange(31, 74) =~= "git clone https://aur.archlinux.org/yay.git"@);
    assert(text::at(b, 31, "git clone https://aur.archlinux.org/yay.git"@));
    text::lemma_sum_holds(a, b, "git clone https://aur.archlinux.org/yay.git"@);
    assert(b.subrange(87, 112) =~= " makepkg -si --noconfirm'"@);
    assert(text::at(b, 87, " makepkg -si --noconfirm'"@));
    text::lemma_sum_holds(a, b, " makepkg -si --noconfirm'"@);
    let head = a + " bash -c 'cd /tmp/yay-build && "@;
    assert(command.subrange(0, head.len() as int) =~= head) by {
        assert(command.subrange(0, head.len() as int) =~= a + b.subrange(0, 31));
    }
    assert(b.subrange(112, 137) =~= " && rm -rf /tmp/yay-build"@);
    assert(command.subrange(command.len() - 25, command.len() as int) =~= b.subrange(112, 137));
    assert("mkdir -p /tmp/yay-build && chown "@ + user + ":"@ + user
        + " /tmp/yay-build && sudo -u "@ + user + " bash -c 'cd /tmp/yay-build && "@ =~= head);
}

// -------------------------------------------------------------------------- services
/// Where the program of a service is named under an init system.
pub open spec fn definition(init: InitSystem, root: Text, name: Text) -> Text {
    match init {
        InitSystem::Runit => root + "/etc/runit/sv/"@ + name + "/run"@,
        InitSystem::OpenRC => root + "/etc/init.d/"@ + name,
        InitSystem::S6 => root + "/etc/s6/sv/"@ + name + "/run"@,
        InitSystem::Dinit => root + "/etc/dinit.d/"@ + name,
    }
}

/// The mode of a definition: a script can be executed, a description is read.
pub open spec fn definition_mode(init: InitSystem) -> u32 {
    if init == InitSystem::Dinit {
        0o644
    } else {
        0o755
    }
}

/// The definition runs the program for the user, as the administrator.
pub open spec fn serves(content: Text, init: InitSystem, program: Text, user: Text) -> bool {
    match init {
        InitSystem::OpenRC => text::holds(content, "\ncommand=\""@ + program + "\"\n"@)
            && text::holds(content, "\ncommand_args=\"--user "@ + user + "\"\n"@),
        InitSystem::Dinit => text::holds(
            content,
            "\ncommand = "@ + program + " --user "@ + user + "\n"@,
        ),
        InitSystem::Runit => text::ends(
            content,
            "\nexec "@ + program + " --user "@ + user + "\n"@,
        ),
        InitSystem::S6 => text::ends(
            content,
            "\nexec "@ + program + " --user "@ + user + " 2>&1\n"@,
        ),
    }
}

/// The definition runs the program with no more rights than the user has.
pub open spec fn confined(content: Text, init: InitSystem, program: Text, user: Text) -> bool {
    match init {
        InitSystem::OpenRC => text::holds(content, "\ncommand=\""@ + program + "\"\n"@)
            && text::holds(content, "\ncommand_user=\""@ + user + ":"@ + user + "\"\n"@),
        InitSystem::Dinit => text::holds(content, "\ncommand = "@ + program + "\n"@)
            && text::holds(content, "\nrun-as = "@ + user + "\n"@),
        InitSystem::Runit => text::ends(
            content,
            "\nexec chpst -u "@ + user + " "@ + program + "\n"@,
        ) || text::ends(
            content,
            "\nexec chpst -u "@ + user + ":"@ + user + " "@ + program + "\n"@,
        ),
        InitSystem::S6 => text::ends(
            content,
            "\nexec s6-setuidgid "@ + user + " "@ + program + " 2>&1\n"@,
        ),
    }
}

proof fn lemma_hhd_runit(user: Text)
    ensures
        text::ends(package_texts::hhd_runit_text(user), "\nexec "@ + "/usr/bin/hhd"@ + " --user "@ + user + "\n"@),
{
    reveal_strlit(r#"#!/bin/sh
exec 2>&1
exec /usr/bin/hhd --user "#);
    reveal_strlit("\n");
    reveal_strlit("\nexec ");
    reveal_strlit(" --user ");
    reveal_strlit("#!/bin/sh\nexec 2>&1");
    reveal_strlit("/usr/bin/hhd");
    {
        let before = "#!/bin/sh\nexec 2>&1"@;
        let part = "\nexec "@ + "/usr/bin/hhd"@ + " --user "@ + user + "\n"@;
        let after = Seq::<char>::empty();
        assert(package_texts::hhd_runit_text(user) =~= before + part + after);
        effects::lemma_part(before, part, after);
    }
}

proof fn lemma_hhd_openrc(user: Text)
    ensures
        text::holds(package_texts::hhd_openrc_text(user), "\ncommand=\""@ + "/usr/bin/hhd"@ + "\"\n"@),
        text::holds(package_texts::hhd_openrc_text(user), "\ncommand_args=\"--user "@ + user + "\"\n"@),
{
    reveal_strlit(r#"#!/sbin/openrc-run
description="Handheld Daemon Service"
command="/usr/bin/hhd"
command_args="--user "#);
    reveal_strlit(r#""
command_background=true
pidfile="/var/run/hhd.pid"

depend() {
	need udev
	after seatd
}
"#);
    reveal_strlit("\ncommand=\"");
    reveal_strlit("\ncommand_args=\"--user ");
    reveal_strlit("\"\n");
    reveal_strlit("\"\ncommand_background=true\npidfile=\"/var/run/hhd.pid\"\n\ndepend() {\n\tneed udev\n\tafter seatd\n}\n");
    reveal_strlit("#!/sbin/openrc-run\ndescription=\"Handheld Daemon Service\"");
    reveal_strlit("#!/sbin/openrc-run\ndescription=\"Handheld Daemon Service\"\ncommand=\"/usr/bin/hhd\"");
    reveal_strlit("/usr/bin/hhd");
    reveal_strlit("command_args=\"--user ");
    reveal_strlit("command_background=true\npidfile=\"/var/run/hhd.pid\"\n\ndepend() {\n\tneed udev\n\tafter seatd\n}\n");
    {
        let before = "#!/sbin/openrc-run\ndescription=\"Handheld Daemon Service\""@;
        let part = "\ncommand=\""@ + "/usr/bin/hhd"@ + "\"\n"@;
        let after = "command_args=\"--user "@ + user + "\"\ncommand_background=true\npidfile=\"/var/run/hhd.pid\"\n\ndepend() {\n\tneed udev\n\tafter seatd\n}\n"@;
        assert(package_texts::hhd_openrc_text(user) =~= before + part + after);
        effects::lemma_part(before, part, after);
    }
    {
        let before = "#!/sbin/openrc-run\ndescription=\"Handheld Daemon Service\"\ncommand=\"/usr/bin/hhd\""@;
        let part = "\ncommand_args=\"--user "@ + user + "\"\n"@;
        let after = "command_background=true\npidfile=\"/var/run/hhd.pid\"\n\ndepend() {\n\tneed udev\n\tafter seatd\n}\n"@;
        assert(package_texts::hhd_openrc_text(user) =~= before + part + after);
        effects::lemma_part(before, part, after);
    }
}

proof fn lemma_hhd_s6(user: Text)
    ensures
        text::ends(package_texts::hhd_s6_text(user), "\nexec "@ + "/usr/bin/hhd"@ + " --user "@ + user + " 2>&1\n"@),
{
    reveal_strlit(r#"#!/bin/sh
exec /usr/bin/hhd --user "#);
    reveal_strlit("\nexec ");
    reveal_strlit(" --user ");
    reveal_strlit(" 2>&1\n");
    reveal_strlit("#!/bin/sh");
    reveal_strlit("/usr/bin/hhd");
    {
        let before = "#!/bin/sh"@;
        let part = "\nexec "@ + "/usr/bin/hhd"@ + " --user "@ + user + " 2>&1\n"@;
        let after = Seq::<char>::empty();
        assert(package_texts::hhd_s6_text(user) =~= before + part + after);
        effects::lemma_part(before, part, after);
    }
}

proof fn lemma_hhd_dinit(user: Text)
    ensures
        text::holds(package_texts::hhd_dinit_text(user), "\ncommand = "@ + "/usr/bin/hhd"@ + " --user "@ + user + "\n"@),
{
    reveal_strlit(r#"type = process
command = /usr/bin/hhd --user "#);
    reveal_strlit("\n");
    reveal_strlit("\ncommand = ");
    reveal_strlit("\nrestart = true\n");
    reveal_strlit(" --user ");
    reveal_strlit("/usr/bin/hhd");
    reveal_strlit("restart = true\n");
    reveal_strlit("type = process");
    {
        let before = "type = process"@;
        let part = "\ncommand = "@ + "/usr/bin/hhd"@ + " --user "@ + user + "\n"@;
        let after = "restart = true\n"@;
        assert(package_texts::hhd_dinit_text(user) =~= before + part + after);
        effects::lemma_part(before, part, after);
    }
}

proof fn lemma_evdevhook2_runit(user: Text)
    ensures
        text::ends(package_texts::evdevhook2_runit_text(user), "\nexec chpst -u "@ + user + " "@ + "/usr/bin/evdevhook2"@ + "\n"@),
{
    reveal_strlit(r#"#!/bin/sh
# evdevhook2 runit service - Cemuhook UDP motion server
sv check dbus >/dev/null || exit 1
exec 2>&1
exec chpst -u "#);
    reveal_strlit("\n");
    reveal_strlit("\nexec chpst -u ");
    reveal_strlit(" ");
    reveal_strlit(" /usr/bin/evdevhook2\n");
    reveal_strlit("#!/bin/sh\n# evdevhook2 runit service - Cemuhook UDP motion server\nsv check dbus >/dev/null || exit 1\nexec 2>&1");
    reveal_strlit("/usr/bin/evdevhook2");
    {
        let before = "#!/bin/sh\n# evdevhook2 runit service - Cemuhook UDP motion server\nsv check dbus >/dev/null || exit 1\nexec 2>&1"@;
        let part = "\nexec chpst -u "@ + user + " "@ + "/usr/bin/evdevhook2"@ + "\n"@;
        let after = Seq::<char>::empty();
        assert(package_texts::evdevhook2_runit_text(user) =~= before + part + after);
        effects::lemma_part(before, part, after);
    }
}

proof fn lemma_evdevhook2_openrc(user: Text)
    ensures
        text::holds(package_texts::evdevhook2_openrc_text(user), "\ncommand=\""@ + "/usr/bin/evdevhook2"@ + "\"\n"@),
        text::holds(package_texts::evdevhook2_openrc_text(user), "\ncommand_user=\""@ + user + ":"@ + user + "\"\n"@),
{
    reveal_strlit(r#"#!/sbin/openrc-run
description="evdevhook2 Cemuhook UDP motion server"
command="/usr/bin/evdevhook2"
command_user=""#);
    reveal_strlit(r#""
command_background=true
pidfile="/run/evdevhook2.pid"

depend() {
	need udev dbus
}
"#);
    reveal_strlit("\ncommand=\"");
    reveal_strlit("\ncommand_user=\"");
    reveal_strlit("\"\n");
    reveal_strlit("\"\ncommand_background=true\npidfile=\"/run/evdevhook2.pid\"\n\ndepend() {\n\tneed udev dbus\n}\n");
    reveal_strlit("#!/sbin/openrc-run\ndescription=\"evdevhook2 Cemuhook UDP motion server\"");
    reveal_strlit("#!/sbin/openrc-run\ndescription=\"evdevhook2 Cemuhook UDP motion server\"\ncommand=\"/usr/bin/evdevhook2\"");
    reveal_strlit("/usr/bin/evdevhook2");
    reveal_strlit(":");
    reveal_strlit("command_background=true\npidfile=\"/run/evdevhook2.pid\"\n\ndepend() {\n\tneed udev dbus\n}\n");
    reveal_strlit("command_user=\"");
    {
        let before = "#!/sbin/openrc-run\ndescription=\"evdevhook2 Cemuhook UDP motion server\""@;
        let part = "\ncommand=\""@ + "/usr/bin/evdevhook2"@ + "\"\n"@;
        let after = "command_user=\""@ + user + ":"@ + user + "\"\ncommand_background=true\npidfile=\"/run/evdevhook2.pid\"\n\ndepend() {\n\tneed udev dbus\n}\n"@;
        assert(package_texts::evdevhook2_openrc_text(user) =~= before + part + after);
        effects::lemma_part(before, part, after);
    }
    {
        let before = "#!/sbin/openrc-run\ndescription=\"evdevhook2 Cemuhook UDP motion server\"\ncommand=\"/usr/bin/evdevhook2\""@;
        let part = "\ncommand_user=\""@ + user + ":"@ + user + "\"\n"@;
        let after = "command_background=true\npidfile=\"/run/evdevhook2.pid\"\n\ndepend() {\n\tneed udev dbus\n}\n"@;
        assert(package_texts::evdevhook2_openrc_text(user) =~= before + part + after);
        effects::lemma_part(before, part, after);
    }
}

proof fn lemma_evdevhook2_s6(user: Text)
    ensures
        text::ends(package_texts::evdevhook2_s6_text(user), "\nexec s6-setuidgid "@ + user + " "@ + "/usr/bin/evdevhook2"@ + " 2>&1\n"@),
{
    reveal_strlit(r#"#!/bin/sh
exec s6-setuidgid "#);
    reveal_strlit("\nexec s6-setuidgid ");
    reveal_strlit(" ");
    reveal_strlit(" /usr/bin/evdevhook2 2>&1\n");
    reveal_strlit(" 2>&1\n");
    reveal_strlit("#!/bin/sh");
    reveal_strlit("/usr/bin/evdevhook2");
    {
        let before = "#!/bin/sh"@;
        let part = "\nexec s6-setuidgid "@ + user + " "@ + "/usr/bin/evdevhook2"@ + " 2>&1\n"@;
        let after = Seq::<char>::empty();
        assert(package_texts::evdevhook2_s6_text(user) =~= before + part + after);
        effects::lemma_part(before, part, after);
    }
}

proof fn lemma_evdevhook2_dinit(user: Text)
    ensures
        text::holds(package_texts::evdevhook2_dinit_text(user), "\ncommand = "@ + "/usr/bin/evdevhook2"@ + "\n"@),
        text::holds(package_texts::evdevhook2_dinit_text(user), "\nrun-as = "@ + user + "\n"@),
{
    reveal_strlit(r#"type = process
command = /usr/bin/evdevhook2
run-as = "#);
    reveal_strlit("\n");
    reveal_strlit("\ncommand = ");
    reveal_strlit("\nrestart = true\n");
    reveal_strlit("\nrun-as = ");
    reveal_strlit("/usr/bin/evdevhook2");
    reveal_strlit("restart = true\n");
    reveal_strlit("run-as = ");
    reveal_strlit("type = process");
    reveal_strlit("type = process\ncommand = /usr/bin/evdevhook2");
    {
        let before = "type = process"@;
        let part = "\ncommand = "@ + "/usr/bin/evdevhook2"@ + "\n"@;
        let after = "run-as = "@ + user + "\nrestart = true\n"@;
        assert(package_texts::evdevhook2_dinit_text(user) =~= before + part + after);
        effects::lemma_part(before, part, after);
    }
    {
        let before = "type = process\ncommand = /usr/bin/evdevhook2"@;
        let part = "\nrun-as = "@ + user + "\n"@;
        let after = "restart = true\n"@;
        assert(package_texts::evdevhook2_dinit_text(user) =~= before + part + after);
        effects::lemma_part(before, part, after);
    }
}

proof fn lemma_decky_openrc(data: Text, user: Text, wd: Text, pl: Text)
    ensures
        text::holds(package_texts::decky_openrc_text(data, user, wd, pl), "\ncommand=\""@ + pl + "\"\n"@),
        text::holds(package_texts::decky_openrc_text(data, user, wd, pl), "\ncommand_user=\""@ + user + ":"@ + user + "\"\n"@),
{
    reveal_strlit(r#"#!/sbin/openrc-run
description="SteamDeck Plugin Loader"
command=""#);
    reveal_strlit(r#""
command_user=""#);
    reveal_strlit(r#""
command_background=true
directory=""#);
    reveal_strlit(r#""
pidfile="/run/plugin_loader.pid"

export HOMEBREW_FOLDER="#);
    reveal_strlit(r#"
export LOG_LEVEL=INFO
export HOME=/home/"#);
    reveal_strlit(r#"

depend() {
	need net
}
"#);
    reveal_strlit("\n\ndepend() {\n\tneed net\n}\n");
    reveal_strlit("\ncommand=\"");
    reveal_strlit("\ncommand_user=\"");
    reveal_strlit("\nexport LOG_LEVEL=INFO\nexport HOME=/home/");
    reveal_strlit("\nexport PRIVILEGED_PATH=");
    reveal_strlit("\nexport UNPRIVILEGED_PATH=");
    reveal_strlit("\"");
    reveal_strlit("\"\n");
    reveal_strlit("\"\ncommand_background=true\ndirectory=\"");
    reveal_strlit("\"\npidfile=\"/run/plugin_loader.pid\"\n\nexport HOMEBREW_FOLDER=");
    reveal_strlit("#!/sbin/openrc-run\ndescription=\"SteamDeck Plugin Loader\"");
    reveal_strlit("#!/sbin/openrc-run\ndescription=\"SteamDeck Plugin Loader\"\ncommand=\"");
    reveal_strlit(":");
    reveal_strlit("command_background=true\ndirectory=\"");
    reveal_strlit("command_user=\"");
    {
        let before = "#!/sbin/openrc-run\ndescription=\"SteamDeck Plugin Loader\""@;
        let part = "\ncommand=\""@ + pl + "\"\n"@;
        let after = "command_user=\""@ + user + ":"@ + user + "\"\ncommand_background=true\ndirectory=\""@ + wd + "\"\npidfile=\"/run/plugin_loader.pid\"\n\nexport HOMEBREW_FOLDER="@ + data + "\nexport UNPRIVILEGED_PATH="@ + data + "\nexport PRIVILEGED_PATH="@ + data + "\nexport LOG_LEVEL=INFO\nexport HOME=/home/"@ + user + "\n\ndepend() {\n\tneed net\n}\n"@;
        assert(package_texts::decky_openrc_text(data, user, wd, pl) =~= before + part + after);
        effects::lemma_part(before, part, after);
    }
    {
        let before = "#!/sbin/openrc-run\ndescription=\"SteamDeck Plugin Loader\"\ncommand=\""@ + pl + "\""@;
        let part = "\ncommand_user=\""@ + user + ":"@ + user + "\"\n"@;
        let after = "command_background=true\ndirectory=\""@ + wd + "\"\npidfile=\"/run/plugin_loader.pid\"\n\nexport HOMEBREW_FOLDER="@ + data + "\nexport UNPRIVILEGED_PATH="@ + data + "\nexport PRIVILEGED_PATH="@ + data + "\nexport LOG_LEVEL=INFO\nexport HOME=/home/"@ + user + "\n\ndepend() {\n\tneed net\n}\n"@;
        assert(package_texts::decky_openrc_text(data, user, wd, pl) =~= before + part + after);
        effects::lemma_part(before, part, after);
    }
}

proof fn lemma_decky_dinit(user: Text, wd: Text, pl: Text)
    ensures
        text::holds(package_texts::decky_dinit_text(user, wd, pl), "\ncommand = "@ + pl + "\n"@),
        text::holds(package_texts::decky_dinit_text(user, wd, pl), "\nrun-as = "@ + user + "\n"@),
{
    reveal_strlit(r#"type = process
command = "#);
    reveal_strlit(r#"
env-file = /etc/dinit.d/plugin_loader.env
restart = true
"#);
    reveal_strlit("\n");
    reveal_strlit("\ncommand = ");
    reveal_strlit("\nenv-file = /etc/dinit.d/plugin_loader.env\nrestart = true\n");
    reveal_strlit("\nrun-as = ");
    reveal_strlit("\nworking-dir = ");
    reveal_strlit("env-file = /etc/dinit.d/plugin_loader.env\nrestart = true\n");
    reveal_strlit("type = process");
    reveal_strlit("type = process\ncommand = ");
    reveal_strlit("working-dir = ");
    {
        let before = "type = process"@;
        let part = "\ncommand = "@ + pl + "\n"@;
        let after = "working-dir = "@ + wd + "\nrun-as = "@ + user + "\nenv-file = /etc/dinit.d/plugin_loader.env\nrestart = true\n"@;
        assert(package_texts::decky_dinit_text(user, wd, pl) =~= before + part + after);
        effects::lemma_part(before, part, after);
    }
    {
        let before = "type = process\ncommand = "@ + pl + "\nworking-dir = "@ + wd;
        let part = "\nrun-as = "@ + user + "\n"@;
        let after = "env-file = /etc/dinit.d/plugin_loader.env\nrestart = true\n"@;
        assert(package_texts::decky_dinit_text(user, wd, pl) =~= before + part + after);
        effects::lemma_part(before, part, after);
    }
}

proof fn lemma_decky_runit(data: Text, user: Text, wd: Text, pl: Text)
    ensures
        text::ends(
            package_texts::decky_runit_text(data, user, wd, pl),
            "\nexec chpst -u "@ + user + ":"@ + user + " "@ + pl + "\n"@,
        ),
{
    let before = package_texts::DECKY_RUNIT_1@ + data + "\nexport UNPRIVILEGED_PATH="@ + data
        + "\nexport PRIVILEGED_PATH="@ + data + package_texts::DECKY_RUNIT_2@ + user + "\ncd "@ + wd;
    let part = "\nexec chpst -u "@ + user + ":"@ + user + " "@ + pl + "\n"@;
    lemma_regrouped(before, "\nexec chpst -u "@, user, ":"@, user, " "@, pl, "\n"@);
    let none = Seq::<char>::empty();
    assert(before + part + none =~= before + part);
    effects::lemma_part(before, part, none);
}

proof fn lemma_decky_s6(data: Text, user: Text, wd: Text, pl: Text)
    ensures
        text::ends(
            package_texts::decky_s6_text(data, user, wd, pl),
            "\nexec s6-setuidgid "@ + user + " "@ + pl + " 2>&1\n"@,
        ),
{
    let before = package_texts::DECKY_S6_1@ + data + "\nexport UNPRIVILEGED_PATH="@ + data
        + "\nexport PRIVILEGED_PATH="@ + data + package_texts::DECKY_S6_2@ + user + "\ncd "@ + wd;
    let part = "\nexec s6-setuidgid "@ + user + " "@ + pl + " 2>&1\n"@;
    let none = Seq::<char>::empty();
    lemma_regrouped(before, "\nexec s6-setuidgid "@, user, " "@, pl, " 2>&1\n"@, none, none);
    let whole = package_texts::decky_s6_text(data, user, wd, pl);
    assert(whole + none + none =~= whole);
    assert(part + none + none =~= part);
    assert(before + part + none =~= before + part);
    effects::lemma_part(before, part, none);
}

proof fn lemma_regrouped(
    before: Text,
    a: Text,
    b: Text,
    c: Text,
    d: Text,
    e: Text,
    f: Text,
    g: Text,
)
    ensures
        before + a + b + c + d + e + f + g == before + (a + b + c + d + e + f + g),
{
    assert(before + a + b + c + d + e + f + g =~= before + (a + b + c + d + e + f + g));
}

/// Handheld Daemon has a service under every init system, where that looks for it; it runs
/// for the user who was chosen.
pub proof fn daemon_serves_the_user(config: DeploymentConfig, root: Text)
    requires
        config.packages.install_hhd,
    ensures
        ({
            let steps = packages::install_hhd_steps(config, root, false);
            let init = config.system.init;
            let user = config.user.name@;
            &&& exists|content: Text|
                {
                    &&& #[trigger] effects::leaves_with(
                        steps,
                        definition(init, root, "hhd"@),
                        content,
                        definition_mode(init),
                    )
                    &&& serves(content, init, "/usr/bin/hhd"@, user)
                }
        }),
{
    let steps = packages::install_hhd_steps(config, root, false);
    let user = config.user.name@;
    let path = definition(config.system.init, root, "hhd"@);
    reveal_strlit("hhd");
    if config.system.init == InitSystem::Runit {
        reveal_strlit("/etc/runit/sv/");
        reveal_strlit("/etc/runit/sv/hhd/run");
        reveal_strlit("/run");
        reveal_strlit("/etc/modules-load.d/hhd.conf");
        reveal_strlit("/etc/runit/sv/hhd/log/run");
        effects::lemma_paths_differ(root, "/etc/runit/sv/hhd/run"@, "/etc/modules-load.d/hhd.conf"@);
        effects::lemma_paths_differ(root, "/etc/runit/sv/hhd/run"@, "/etc/runit/sv/hhd/log/run"@);
        assert(path =~= root + "/etc/runit/sv/hhd/run"@);
        lemma_hhd_runit(user);
        let content = package_texts::hhd_runit_text(user);
        assert(effects::touches(steps[4], path));
        assert(effects::leaves_with(steps, path, content, definition_mode(config.system.init)));
    }
    if config.system.init == InitSystem::OpenRC {
        reveal_strlit("/etc/init.d/");
        reveal_strlit("/etc/init.d/hhd");
        reveal_strlit("/run");
        reveal_strlit("/etc/modules-load.d/hhd.conf");
        effects::lemma_paths_differ(root, "/etc/init.d/hhd"@, "/etc/modules-load.d/hhd.conf"@);
        assert(path =~= root + "/etc/init.d/hhd"@);
        lemma_hhd_openrc(user);
        let content = package_texts::hhd_openrc_text(user);
        assert(effects::touches(steps[4], path));
        assert(effects::leaves_with(steps, path, content, definition_mode(config.system.init)));
    }
    if config.system.init == InitSystem::S6 {
        reveal_strlit("/etc/s6/sv/");
        reveal_strlit("/etc/s6/sv/hhd/run");
        reveal_strlit("/run");
        reveal_strlit("/etc/modules-load.d/hhd.conf");
        reveal_strlit("/etc/s6/sv/hhd/type");
        effects::lemma_paths_differ(root, "/etc/s6/sv/hhd/run"@, "/etc/modules-load.d/hhd.conf"@);
        effects::lemma_paths_differ(root, "/etc/s6/sv/hhd/run"@, "/etc/s6/sv/hhd/type"@);
        assert(path =~= root + "/etc/s6/sv/hhd/run"@);
        lemma_hhd_s6(user);
        let content = package_texts::hhd_s6_text(user);
        assert(effects::touches(steps[5], path));
        assert(effects::leaves_with(steps, path, content, definition_mode(config.system.init)));
    }
    if config.system.init == InitSystem::Dinit {
        reveal_strlit("/etc/dinit.d/");
        reveal_strlit("/etc/dinit.d/hhd");
        reveal_strlit("/run");
        reveal_strlit("/etc/modules-load.d/hhd.conf");
        effects::lemma_paths_differ(root, "/etc/dinit.d/hhd"@, "/etc/modules-load.d/hhd.conf"@);
        assert(path =~= root + "/etc/dinit.d/hhd"@);
        lemma_hhd_dinit(user);
        let content = package_texts::hhd_dinit_text(user);
        assert(effects::touches(steps[4], path));
        assert(effects::leaves_with(steps, path, content, definition_mode(config.system.init)));
    }
}

/// The motion server has a service under every init system, where that looks for it; it runs
/// as the user, who is let at the devices for it.
pub proof fn motion_server_is_confined(config: DeploymentConfig, root: Text)
    requires
        config.packages.install_evdevhook2,
    ensures
        ({
            let steps = packages::install_evdevhook2_steps(config, root, false);
            let init = config.system.init;
            let user = config.user.name@;
            &&& exists|content: Text|
                {
                    &&& #[trigger] effects::leaves_with(
                        steps,
                        definition(init, root, "evdevhook2"@),
                        content,
                        definition_mode(init),
                    )
                    &&& confined(content, init, "/usr/bin/evdevhook2"@, user)
                }
            &&& steps.contains(
                Act::Chroot { root, command: "gpasswd -a "@ + user + " input"@ },
            )
        }),
{
    let steps = packages::install_evdevhook2_steps(config, root, false);
    let user = config.user.name@;
    let path = definition(config.system.init, root, "evdevhook2"@);
    reveal_strlit("evdevhook2");
    if config.system.init == InitSystem::Runit {
        reveal_strlit("/etc/runit/sv/");
        reveal_strlit("/etc/runit/sv/evdevhook2/run");
        reveal_strlit("/run");
        reveal_strlit("/etc/udev/rules.d/60-evdevhook2.rules");
        reveal_strlit("/etc/runit/sv/evdevhook2/log/run");
        effects::lemma_paths_differ(root, "/etc/runit/sv/evdevhook2/run"@, "/etc/udev/rules.d/60-evdevhook2.rules"@);
        effects::lemma_paths_differ(root, "/etc/runit/sv/evdevhook2/run"@, "/etc/runit/sv/evdevhook2/log/run"@);
        assert(path =~= root + "/etc/runit/sv/evdevhook2/run"@);
        lemma_evdevhook2_runit(user);
        let content = package_texts::evdevhook2_runit_text(user);
        assert(effects::touches(steps[5], path));
        assert(effects::leaves_with(steps, path, content, definition_mode(config.system.init)));
    }
    if config.system.init == InitSystem::OpenRC {
        reveal_strlit("/etc/init.d/");
        reveal_strlit("/etc/init.d/evdevhook2");
        reveal_strlit("/run");
        reveal_strlit("/etc/udev/rules.d/60-evdevhook2.rules");
        effects::lemma_paths_differ(root, "/etc/init.d/evdevhook2"@, "/etc/udev/rules.d/60-evdevhook2.rules"@);
        assert(path =~= root + "/etc/init.d/evdevhook2"@);
        lemma_evdevhook2_openrc(user);
        let content = package_texts::evdevhook2_openrc_text(user);
        assert(effects::touches(steps[5], path));
        assert(effects::leaves_with(steps, path, content, definition_mode(config.system.init)));
    }
    if config.system.init == InitSystem::S6 {
        reveal_strlit("/etc/s6/sv/");
        reveal_strlit("/etc/s6/sv/evdevhook2/run");
        reveal_strlit("/run");
        reveal_strlit("/etc/udev/rules.d/60-evdevhook2.rules");
        reveal_strlit("/etc/s6/sv/evdevhook2/type");
        effects::lemma_paths_differ(root, "/etc/s6/sv/evdevhook2/run"@, "/etc/udev/rules.d/60-evdevhook2.rules"@);
        effects::lemma_paths_differ(root, "/etc/s6/sv/evdevhook2/run"@, "/etc/s6/sv/evdevhook2/type"@);
        assert(path =~= root + "/etc/s6/sv/evdevhook2/run"@);
        lemma_evdevhook2_s6(user);
        let content = package_texts::evdevhook2_s6_text(user);
        assert(effects::touches(steps[6], path));
        assert(effects::leaves_with(steps, path, content, definition_mode(config.system.init)));
    }
    if config.system.init == InitSystem::Dinit {
        reveal_strlit("/etc/dinit.d/");
        reveal_strlit("/etc/dinit.d/evdevhook2");
        reveal_strlit("/run");
        reveal_strlit("/etc/udev/rules.d/60-evdevhook2.rules");
        effects::lemma_paths_differ(root, "/etc/dinit.d/evdevhook2"@, "/etc/udev/rules.d/60-evdevhook2.rules"@);
        assert(path =~= root + "/etc/dinit.d/evdevhook2"@);
        lemma_evdevhook2_dinit(user);
        let content = package_texts::evdevhook2_dinit_text(user);
        assert(effects::touches(steps[5], path));
        assert(effects::leaves_with(steps, path, content, definition_mode(config.system.init)));
    }
    assert(steps[3] == (Act::Chroot { root, command: "gpasswd -a "@ + user + " input"@ }));
}

/// The plugin loader has a service under every init system, where that looks for it; it runs
/// as the user, out of the directory in that user's home that the service is told of.
pub proof fn plugin_loader_is_confined(config: DeploymentConfig, root: Text)
    requires
        config.packages.install_decky_loader,
    ensures
        ({
            let steps = packages::install_decky_loader_steps(config, root, false);
            let init = config.system.init;
            let user = config.user.name@;
            &&& exists|content: Text|
                {
                    &&& #[trigger] effects::leaves_with(
                        steps,
                        definition(init, root, "plugin_loader"@),
                        content,
                        definition_mode(init),
                    )
                    &&& confined(content, init, "/home/"@ + user + "/.local/var/opt/decky-loader"@ + "/services/PluginLoader"@, user)
                }
            &&& init == InitSystem::Dinit ==> exists|variables: Text|
                {
                    &&& #[trigger] effects::leaves_with(
                        steps,
                        root + "/etc/dinit.d/plugin_loader.env"@,
                        variables,
                        0o644,
                    )
                    &&& text::begins(
                        variables,
                        "HOMEBREW_FOLDER="@ + ("/home/"@ + user + "/.local/var/opt/decky-loader"@)
                            + "\n"@,
                    )
                }
            &&& steps.last() == (Act::Chroot {
                root,
                command: "chown -R "@ + user + ":"@ + user + " /home/"@ + user + "/.local /home/"@
                    + user + "/.steam"@,
            })
        }),
{
    let steps = packages::install_decky_loader_steps(config, root, false);
    let user = config.user.name@;
    let path = definition(config.system.init, root, "plugin_loader"@);
    reveal_strlit("plugin_loader");
    let data = "/home/"@ + user + "/.local/var/opt/decky-loader"@;
    let wd = data + "/services"@;
    let pl = data + "/services/PluginLoader"@;
    let flag = root + "/home/"@ + user + "/.steam/steam/.cef-enable-remote-debugging"@;
    let other = root + "/home/"@ + user
        + "/.var/app/com.valvesoftware.Steam/data/Steam/.cef-enable-remote-debugging"@;
    reveal_strlit("/home/");
    let n = root.len() as int;
    assert(flag[n + 1] == 'h' && other[n + 1] == 'h');
    if config.system.init == InitSystem::Runit {
        reveal_strlit("/etc/runit/sv/");
        reveal_strlit("/etc/runit/sv/plugin_loader/run");
        reveal_strlit("/run");
        reveal_strlit("/etc/runit/sv/plugin_loader/log/run");
        effects::lemma_paths_differ(root, "/etc/runit/sv/plugin_loader/run"@, "/etc/runit/sv/plugin_loader/log/run"@);
        assert(path =~= root + "/etc/runit/sv/plugin_loader/run"@);
        assert(path[n + 1] == 'e');
        lemma_decky_runit(data, user, wd, pl);
        let content = package_texts::decky_runit_text(data, user, wd, pl);
        assert(effects::touches(steps[6], path));
        assert(effects::leaves_with(steps, path, content, definition_mode(config.system.init)));
    }
    if config.system.init == InitSystem::OpenRC {
        reveal_strlit("/etc/init.d/");
        reveal_strlit("/etc/init.d/plugin_loader");
        reveal_strlit("/run");
        assert(path =~= root + "/etc/init.d/plugin_loader"@);
        assert(path[n + 1] == 'e');
        lemma_decky_openrc(data, user, wd, pl);
        let content = package_texts::decky_openrc_text(data, user, wd, pl);
        assert(effects::touches(steps[6], path));
        assert(effects::leaves_with(steps, path, content, definition_mode(config.system.init)));
    }
    if config.system.init == InitSystem::S6 {
        reveal_strlit("/etc/s6/sv/");
        reveal_strlit("/etc/s6/sv/plugin_loader/run");
        reveal_strlit("/run");
        reveal_strlit("/etc/s6/sv/plugin_loader/type");
        effects::lemma_paths_differ(root, "/etc/s6/sv/plugin_loader/run"@, "/etc/s6/sv/plugin_loader/type"@);
        assert(path =~= root + "/etc/s6/sv/plugin_loader/run"@);
        assert(path[n + 1] == 'e');
        lemma_decky_s6(data, user, wd, pl);
        let content = package_texts::decky_s6_text(data, user, wd, pl);
        assert(effects::touches(steps[7], path));
        assert(effects::leaves_with(steps, path, content, definition_mode(config.system.init)));
    }
    if config.system.init == InitSystem::Dinit {
        reveal_strlit("/etc/dinit.d/");
        reveal_strlit("/etc/dinit.d/plugin_loader");
        reveal_strlit("/run");
        reveal_strlit("/etc/dinit.d/plugin_loader.env");
        effects::lemma_paths_differ(root, "/etc/dinit.d/plugin_loader"@, "/etc/dinit.d/plugin_loader.env"@);
        assert(path =~= root + "/etc/dinit.d/plugin_loader"@);
        assert(path[n + 1] == 'e');
        assert((root + "/etc/dinit.d/plugin_loader.env"@)[n + 1] == 'e');
        lemma_variables(data, user);
        lemma_decky_dinit(user, wd, pl);
        let content = package_texts::decky_dinit_text(user, wd, pl);
        assert(effects::touches(steps[7], path));
        assert(effects::leaves_with(steps, path, content, definition_mode(config.system.init)));
        assert(effects::touches(steps[6], root + "/etc/dinit.d/plugin_loader.env"@));
        assert(effects::leaves_with(steps, root + "/etc/dinit.d/plugin_loader.env"@, package_texts::decky_env_text(data, user), 0o644));
    }
}

proof fn lemma_variables(data: Text, user: Text)
    ensures
        text::begins(
            package_texts::decky_env_text(data, user),
            "HOMEBREW_FOLDER="@ + data + "\n"@,
        ),
{
    reveal_strlit("HOMEBREW_FOLDER=");
    reveal_strlit("\n");
    reveal_strlit("\nUNPRIVILEGED_PATH=");
    let s = package_texts::decky_env_text(data, user);
    let p = "HOMEBREW_FOLDER="@ + data + "\n"@;
    assert(s.subrange(0, p.len() as int) =~= p);
}

proof fn lemma_games_conf()
    ensures
        text::holds(package_texts::GAMING_SYSCTL_CONF@, "\nvm.max_map_count = 2147483642\n"@),
        text::holds(package_texts::GAMING_SYSCTL_CONF@, "\nvm.swappiness = 10\n"@),
{
    reveal_strlit(r#"# Gaming performance tweaks — written by Deploytix
#
# vm.max_map_count: critical for Windows games via Proton/WINE.
# Matches the Steam Deck default (MAX_INT - 5).
vm.max_map_count = 2147483642

# Reduce kernel swap-out aggressiveness for interactive/gaming workloads.
vm.swappiness = 10

# Improve CPU scheduling responsiveness for desktop and gaming tasks.
kernel.sched_autogroup_enabled = 1

# Enable TCP Fast Open (client + server) for improved network latency.
net.ipv4.tcp_fastopen = 3

# Raise the maximum number of open file descriptors.
fs.file-max = 524288
"#);
    reveal_strlit("\nvm.max_map_count = 2147483642\n");
    assert(package_texts::GAMING_SYSCTL_CONF@.subrange(164, 195) =~= "\nvm.max_map_count = 2147483642\n"@);
    assert(text::at(package_texts::GAMING_SYSCTL_CONF@, 164, "\nvm.max_map_count = 2147483642\n"@));
    reveal_strlit("\nvm.swappiness = 10\n");
    assert(package_texts::GAMING_SYSCTL_CONF@.subrange(269, 289) =~= "\nvm.swappiness = 10\n"@);
    assert(text::at(package_texts::GAMING_SYSCTL_CONF@, 269, "\nvm.swappiness = 10\n"@));
}

proof fn lemma_network_conf()
    ensures
        text::holds(package_texts::NETWORK_PERFORMANCE_SYSCTL_CONF@, "\nnet.ipv4.tcp_congestion_control = bbr\n"@),
        text::holds(package_texts::NETWORK_PERFORMANCE_SYSCTL_CONF@, "\nnet.core.default_qdisc = fq\n"@),
        text::holds(package_texts::NETWORK_PERFORMANCE_SYSCTL_CONF@, "\nnet.core.rmem_max = 16777216\n"@),
{
    reveal_strlit(r#"# Network performance tweaks — written by Deploytix
# Complements /etc/sysctl.d/99-gaming.conf (no key overlap).

# --- Congestion control & queueing ---------------------------------------
# BBR + fq: pacing-aware qdisc recommended for BBR.  Improves throughput
# and latency under bufferbloat (typical of consumer Wi-Fi / ISPs).
net.core.default_qdisc = fq
net.ipv4.tcp_congestion_control = bbr

# --- Socket buffer ceilings ---------------------------------------------
# 16 MiB ceiling covers ~1.5 Gbps * 80 ms BDP, enough for Wi-Fi 6 +
# transcontinental links.
net.core.rmem_max = 16777216
net.core.wmem_max = 16777216
net.core.rmem_default = 1048576
net.core.wmem_default = 1048576
net.core.optmem_max = 65536

# TCP autotuning ranges: min / default / max bytes.
net.ipv4.tcp_rmem = 4096 1048576 16777216
net.ipv4.tcp_wmem = 4096 1048576 16777216

# UDP memory pressure thresholds (bytes per socket).
net.ipv4.udp_rmem_min = 16384
net.ipv4.udp_wmem_min = 16384

# --- Backlogs / queues ---------------------------------------------------
net.core.netdev_max_backlog = 5000
net.core.netdev_budget = 600
net.core.netdev_budget_usecs = 8000

net.core.somaxconn = 4096
net.ipv4.tcp_max_syn_backlog = 8192

# --- TCP behaviour -------------------------------------------------------
# Helps on links with broken PMTUD (Wi-Fi / VPN).
net.ipv4.tcp_mtu_probing = 1

# Cap unsent bytes in the socket buffer so BBR can pace tightly.
net.ipv4.tcp_notsent_lowat = 131072

# Recycle TIME_WAIT faster (safe on clients; fine on single-NAT hosts).
net.ipv4.tcp_fin_timeout = 15
net.ipv4.tcp_tw_reuse = 1

# Keepalive tuned for long-lived sessions on flaky Wi-Fi.
net.ipv4.tcp_keepalive_time = 300
net.ipv4.tcp_keepalive_intvl = 30
net.ipv4.tcp_keepalive_probes = 5

# ECN (negotiated, not forced).
net.ipv4.tcp_ecn = 1

# Don't restart congestion window after idle periods.
net.ipv4.tcp_slow_start_after_idle = 0

# SACK + F-RTO are on by default; pinned for clarity.
net.ipv4.tcp_sack = 1
net.ipv4.tcp_frto = 2

# --- Security / hygiene --------------------------------------------------
net.ipv4.tcp_syncookies = 1
net.ipv4.conf.all.rp_filter = 1
net.ipv4.conf.default.rp_filter = 1
net.ipv4.icmp_echo_ignore_broadcasts = 1
net.ipv4.conf.all.accept_redirects = 0
net.ipv4.conf.default.accept_redirects = 0
net.ipv6.conf.all.accept_redirects = 0
net.ipv6.conf.default.accept_redirects = 0
"#);
    reveal_strlit("\nnet.ipv4.tcp_congestion_control = bbr\n");
    assert(package_texts::NETWORK_PERFORMANCE_SYSCTL_CONF@.subrange(358, 397) =~= "\nnet.ipv4.tcp_congestion_control = bbr\n"@);
    assert(text::at(package_texts::NETWORK_PERFORMANCE_SYSCTL_CONF@, 358, "\nnet.ipv4.tcp_congestion_control = bbr\n"@));
    reveal_strlit("\nnet.core.default_qdisc = fq\n");
    assert(package_texts::NETWORK_PERFORMANCE_SYSCTL_CONF@.subrange(330, 359) =~= "\nnet.core.default_qdisc = fq\n"@);
    assert(text::at(package_texts::NETWORK_PERFORMANCE_SYSCTL_CONF@, 330, "\nnet.core.default_qdisc = fq\n"@));
    reveal_strlit("\nnet.core.rmem_max = 16777216\n");
    assert(package_texts::NETWORK_PERFORMANCE_SYSCTL_CONF@.subrange(566, 596) =~= "\nnet.core.rmem_max = 16777216\n"@);
    assert(text::at(package_texts::NETWORK_PERFORMANCE_SYSCTL_CONF@, 566, "\nnet.core.rmem_max = 16777216\n"@));
}

/// The kernel is tuned where that was chosen and left alone where it was not: games get room
/// for their maps and little swapping, the network its congestion control and its buffers.
pub proof fn kernel_is_tuned_where_chosen(config: DeploymentConfig, root: Text)
    ensures
        ({
            let games = packages::install_sysctl_gaming_steps(config, root, false);
            let network = packages::install_sysctl_network_performance_steps(config, root, false);
            &&& if config.packages.sysctl_gaming_tweaks {
                exists|content: Text|
                    {
                        &&& #[trigger] effects::leaves_with(
                            games,
                            root + "/etc/sysctl.d/99-gaming.conf"@,
                            content,
                            0o644,
                        )
                        &&& text::holds(content, "\nvm.max_map_count = 2147483642\n"@)
                        &&& text::holds(content, "\nvm.swappiness = 10\n"@)
                    }
            } else {
                games.len() == 0
            }
            &&& if config.packages.sysctl_network_performance {
                exists|content: Text|
                    {
                        &&& #[trigger] effects::leaves_with(
                            network,
                            root + "/etc/sysctl.d/99-network-performance.conf"@,
                            content,
                            0o644,
                        )
                        &&& text::holds(content, "\nnet.ipv4.tcp_congestion_control = bbr\n"@)
                        &&& text::holds(content, "\nnet.core.default_qdisc = fq\n"@)
                        &&& text::holds(content, "\nnet.core.rmem_max = 16777216\n"@)
                    }
            } else {
                network.len() == 0
            }
        }),
{
    let games = packages::install_sysctl_gaming_steps(config, root, false);
    let network = packages::install_sysctl_network_performance_steps(config, root, false);
    if config.packages.sysctl_gaming_tweaks {
        lemma_games_conf();
        let path = root + "/etc/sysctl.d/99-gaming.conf"@;
        assert(effects::touches(games[1], path));
        assert(effects::leaves_with(games, path, package_texts::GAMING_SYSCTL_CONF@, 0o644));
    }
    if config.packages.sysctl_network_performance {
        lemma_network_conf();
        let path = root + "/etc/sysctl.d/99-network-performance.conf"@;
        assert(effects::touches(network[1], path));
        assert(effects::leaves_with(
            network,
            path,
            package_texts::NETWORK_PERFORMANCE_SYSCTL_CONF@,
            0o644,
        ));
    }
}

/// With the session starts the script that was written for it, and the applet exactly where
/// NetworkManager manages the network; all of it is the user's in the end.
pub proof fn session_starts_what_is_there(config: DeploymentConfig, script: Text, root: Text)
    ensures
        ({
            let steps = packages::install_autostart_entries_steps(config, script, root, false);
            let user = config.user.name@;
            let home = "/home/"@ + user;
            let program = home + "/.local/bin/audio-startup"@;
            let entries = root + home + "/.config/autostart"@;
            &&& effects::leaves_with(steps, root + program, script, 0o755)
            &&& exists|content: Text|
                #[trigger] effects::leaves_with(
                    steps,
                    entries + "/audio-startup.desktop"@,
                    content,
                    0o644,
                ) && text::holds(content, "\nExec="@ + program + "\n"@)
            &&& (exists|content: Text|
                #[trigger] effects::leaves_with(
                    steps,
                    entries + "/nm-applet.desktop"@,
                    content,
                    0o644,
                ) && text::holds(content, "\nExec=/bin/nm-applet\n"@)) <==> config.network.backend
                == NetworkBackend::NetworkManager
            &&& steps.last() == (Act::Chroot {
                root,
                command: "chown -R "@ + user + ":"@ + user + " "@ + (home + "/.local"@) + " "@ + (home
                    + "/.config"@),
            })
        }),
{
    let steps = packages::install_autostart_entries_steps(config, script, root, false);
    let user = config.user.name@;
    let home = "/home/"@ + user;
    let program = home + "/.local/bin/audio-startup"@;
    let entries = root + home + "/.config/autostart"@;
    let a = root + program;
    let b = entries + "/audio-startup.desktop"@;
    let c = entries + "/nm-applet.desktop"@;
    reveal_strlit("/.local/bin/audio-startup");
    reveal_strlit("/.config/autostart/audio-startup.desktop");
    reveal_strlit("/.config/autostart/nm-applet.desktop");
    reveal_strlit("/.config/autostart");
    reveal_strlit("/audio-startup.desktop");
    reveal_strlit("/nm-applet.desktop");
    assert(a =~= root + "/home/"@ + user + "/.local/bin/audio-startup"@);
    assert(b =~= root + "/home/"@ + user + "/.config/autostart/audio-startup.desktop"@);
    assert(c =~= root + "/home/"@ + user + "/.config/autostart/nm-applet.desktop"@);
    let n = (root + home).len();
    assert(a.len() == n + 25 && b.len() == n + 40 && c.len() == n + 36);
    assert(effects::touches(steps[2], a));
    assert(effects::touches(steps[3], b));
    assert(effects::leaves_with(steps, a, script, 0o755));
    let entry = package_texts::audio_desktop_text(user);
    assert(effects::leaves_with(steps, b, entry, 0o644));
    lemma_audio_entry(user);
    lemma_applet_entry();
    if config.network.backend == NetworkBackend::NetworkManager {
        assert(effects::touches(steps[4], c));
        assert(effects::leaves_with(steps, c, package_texts::NM_DESKTOP@, 0o644));
    } else {
        assert(steps.len() == 5);
        assert forall|i: int| 0 <= i < steps.len() implies !effects::touches(
            #[trigger] steps[i],
            c,
        ) by {}
    }
    reveal_strlit(" /home/");
    reveal_strlit("/home/");
    reveal_strlit(" ");
    reveal_strlit("/.local /home/");
    reveal_strlit("/.local");
    assert("chown -R "@ + user + ":"@ + user + " /home/"@ + user + "/.local /home/"@ + user
        + "/.config"@ =~= "chown -R "@ + user + ":"@ + user + " "@ + (home + "/.local"@) + " "@ + (home
        + "/.config"@));
}

proof fn lemma_audio_entry(user: Text)
    ensures
        text::holds(
            package_texts::audio_desktop_text(user),
            "\nExec="@ + ("/home/"@ + user + "/.local/bin/audio-startup"@) + "\n"@,
        ),
{
    reveal_strlit(r#"[Desktop Entry]
Type=Application
Name=Audio Startup
Exec=/home/"#);
    reveal_strlit(r#"/.local/bin/audio-startup
Hidden=false
NoDisplay=false
X-GNOME-Autostart-enabled=true
Comment=Start PipeWire audio services
"#);
    reveal_strlit("\nExec=");
    reveal_strlit("/home/");
    reveal_strlit("/.local/bin/audio-startup");
    reveal_strlit("\n");
    reveal_strlit("[Desktop Entry]\nType=Application\nName=Audio Startup");
    reveal_strlit("Hidden=false\nNoDisplay=false\nX-GNOME-Autostart-enabled=true\nComment=Start PipeWire audio services\n");
    let before = "[Desktop Entry]\nType=Application\nName=Audio Startup"@;
    let part = "\nExec="@ + ("/home/"@ + user + "/.local/bin/audio-startup"@) + "\n"@;
    let after = "Hidden=false\nNoDisplay=false\nX-GNOME-Autostart-enabled=true\nComment=Start PipeWire audio services\n"@;
    assert(package_texts::audio_desktop_text(user) =~= before + part + after);
    effects::lemma_part(before, part, after);
}

proof fn lemma_applet_entry()
    ensures
        text::holds(package_texts::NM_DESKTOP@, "\nExec=/bin/nm-applet\n"@),
{
    reveal_strlit(r#"[Desktop Entry]
Type=Application
Name=Network Manager Applet
Exec=/bin/nm-applet
Hidden=false
NoDisplay=false
X-GNOME-Autostart-enabled=true
Comment=NetworkManager system tray applet
"#);
    reveal_strlit("\nExec=/bin/nm-applet\n");
    assert(package_texts::NM_DESKTOP@.subrange(60, 81) =~= "\nExec=/bin/nm-applet\n"@);
    assert(text::at(package_texts::NM_DESKTOP@, 60, "\nExec=/bin/nm-applet\n"@));
}

} // verus!
