//! The fixed titles and descriptions of the issues that a log analysis reports.
use vstd::prelude::*;

verus! {

/// Title of the `OutdatedFlatpakNvidiaDriver` issue.
pub const OUTDATED_FLATPAK_NVIDIA_DRIVER_TITLE: &'static str = "Outdated Nvidia Flatpak Driver";

/// Description of the `OutdatedFlatpakNvidiaDriver` issue.
pub const OUTDATED_FLATPAK_NVIDIA_DRIVER_DESCRIPTION: &'static str = "The Nvidia driver for flatpak is outdated.
				Please run `flatpak update` to fix this issue. \
				If that does not solve it, \
				please wait until the driver is added to Flathub and run it again.";

/// Title of the `FabricInternalAccess` issue.
pub const FABRIC_INTERNAL_ACCESS_TITLE: &'static str = "Fabric Internal Access";

/// Description of the `FabricInternalAccess` issue.
pub const FABRIC_INTERNAL_ACCESS_DESCRIPTION: &'static str = "The mod you are using is using fabric internals that are not meant \
				to be used by anything but the loader itself.
				Those mods break both on Quilt and with fabric updates.
				If you're using fabric, downgrade your fabric loader could work, \
				on Quilt you can try updating to the latest beta version, \
				but there's nothing much to do unless the mod author stops using them.";

/// Title of the `LexforgeZlibng` issue.
pub const LEXFORGE_ZLIBNG_TITLE: &'static str = "Forge on zlib-ng";

/// Description of the `LexforgeZlibng` issue.
pub const LEXFORGE_ZLIBNG_DESCRIPTION: &'static str = "Some Linux distributions like CachyOS and Fedora
				use zlib-ng instead of classic zlib, which is 
				incompatible with MinecraftForge installers. \
				To fix this, add `-Dforgewrapper.skipHashCheck=true`
				in Edit > Settings > Java > Java arguments.";

/// Title of the `ForgeJava` issue.
pub const FORGE_JAVA_TITLE: &'static str = "Forge Java Bug";

/// Description of the `ForgeJava` issue.
pub const FORGE_JAVA_DESCRIPTION: &'static str = "Old versions of Forge crash with Java 8u321+.
				To fix this, update forge to the latest version via the Versions tab
				(right click on Forge, click Change Version, and choose the latest one)
				Alternatively, you can download 8u312 or lower. \
				See [archive](https://github.com/adoptium/temurin8-binaries/releases/tag/jdk8u312-b07)";

/// Title of the `IntelHd` issue.
pub const INTEL_HD_TITLE: &'static str = "Intel HD Windows 10";

/// Description of the `IntelHd` issue.
pub const INTEL_HD_DESCRIPTION: &'static str = "Your drivers don't support Windows 10 officially
				See https://prismlauncher.org/wiki/getting-started/installing-java/#a-note-about-intel-hd-20003000-on-windows-10 for more info";

/// Title of the `Lwjgl2JavaAbove8` issue.
pub const LWJGL2_JAVA_ABOVE8_TITLE: &'static str = "Linux: crash with pre-1.13 and Java 9+";

/// Description of the `Lwjgl2JavaAbove8` issue.
pub const LWJGL2_JAVA_ABOVE8_DESCRIPTION: &'static str = "Using pre-1.13 (which uses LWJGL 2) with Java 9 or later usually causes a crash. \
				Switching to Java 8 or below will fix your issue.
				Alternatively, you can use [Temurin](https://adoptium.net/temurin/releases). \
				However, multiplayer will not work in versions from 1.8 to 1.11.
				For more information, type `/tag java`.";

/// Title of the `MacOSNSInternal` issue.
pub const MAC_O_S_N_S_INTERNAL_TITLE: &'static str = "MacOS NSInternalInconsistencyException";

/// Description of the `MacOSNSInternal` issue.
pub const MAC_O_S_N_S_INTERNAL_DESCRIPTION: &'static str = "You need to downgrade your Java 8 version. See https://prismlauncher.org/wiki/getting-started/installing-java/#older-minecraft-on-macos";

/// Title of the `Optifine` issue.
pub const OPTIFINE_TITLE: &'static str = "Potential OptiFine Incompatibilities";

/// Description of the `Optifine` issue.
pub const OPTIFINE_DESCRIPTION: &'static str = "OptiFine is known to cause problems when paired with other mods. \
				Try to disable OptiFine and see if the issue persists.
				Check `/tag optifine` for more info & some typically more compatible alternatives you can use.";

/// Title of the `NettyJavaAbove8` issue.
pub const NETTY_JAVA_ABOVE8_TITLE: &'static str = "Linux: broken multiplayer with 1.8-1.11 and Java 9+";

/// Description of the `NettyJavaAbove8` issue.
pub const NETTY_JAVA_ABOVE8_DESCRIPTION: &'static str = "These versions of Minecraft use an outdated version of Netty which does not properly support Java 9.

				Switching to Java 8 or below will fix this issue. For more information, type `/tag java`.

				If you must use a newer version, do the following:
				- Open `options.txt` (in the main window Edit -> Open .minecraft) and change.
				- Find `useNativeTransport:true` and change it to `useNativeTransport:false`.
				Note: whilst Netty was introduced in 1.7, this option did not exist \
				which is why the issue was not present.";

/// Title of the `ForgeMissingDependencies` issue.
pub const FORGE_MISSING_DEPENDENCIES_TITLE: &'static str = "Missing mod dependencies";

/// Description of the `ForgeMissingDependencies` issue.
pub const FORGE_MISSING_DEPENDENCIES_DESCRIPTION: &'static str = "You seem to be missing mod dependencies.
				Search for \"mandatory dependencies\" in your log.";

/// Title of the `NewJavaOldForgeLegacyJavaFixer` issue.
pub const NEW_JAVA_OLD_FORGE_LEGACY_JAVA_FIXER_TITLE: &'static str = "LegacyJavaFixer";

/// Description of the `NewJavaOldForgeLegacyJavaFixer` issue.
pub const NEW_JAVA_OLD_FORGE_LEGACY_JAVA_FIXER_DESCRIPTION: &'static str = "You are using a modern Java version with an old Forge version, which is causing this crash.
				MinecraftForge provides a coremod to fix this issue, download it [here](https://dist.creeper.host/FTB2/maven/net/minecraftforge/lex/legacyjavafixer/1.0/legacyjavafixer-1.0.jar).";

/// Title of the `MissingIndium` issue.
pub const MISSING_INDIUM_TITLE: &'static str = "Missing Indium";

/// Description of the `MissingIndium` issue.
pub const MISSING_INDIUM_DESCRIPTION: &'static str = "You are using a mod that needs Indium.
				Please install it by going to Edit > Mods > Download Mods.";

/// Title of the `Java32BitMemoryLimit` issue.
pub const JAVA32_BIT_MEMORY_LIMIT_TITLE: &'static str = "32 bit Java crash";

/// Description of the `Java32BitMemoryLimit` issue.
pub const JAVA32_BIT_MEMORY_LIMIT_DESCRIPTION: &'static str = "You are using a 32 bit Java version. Please select 64 bit Java instead. Check `/tag java` for more information.";

/// Title of the `WrongIntermediaryMappingsVersion` issue.
pub const WRONG_INTERMEDIARY_MAPPINGS_VERSION_TITLE: &'static str = "Wrong Intermediary Mappings version";

/// Description of the `WrongIntermediaryMappingsVersion` issue.
pub const WRONG_INTERMEDIARY_MAPPINGS_VERSION_DESCRIPTION: &'static str = "You are using Intermediary Mappings for the wrong Minecraft version.
				Please select Change Version while it is selected in Edit > Version.";

/// Title of the `NewJavaOldForgeIgnoreCerts` issue.
pub const NEW_JAVA_OLD_FORGE_IGNORE_CERTS_TITLE: &'static str = "Forge on old Minecraft versions";

/// Description of the `NewJavaOldForgeIgnoreCerts` issue.
pub const NEW_JAVA_OLD_FORGE_IGNORE_CERTS_DESCRIPTION: &'static str = "This crash is caused by using an old Forge version with a modern Java version.
				To fix it, add the flag `-Dfml.ignoreInvalidMinecraftCertificates=true` to Edit > Settings > Java arguments.";

/// Title of the `ChecksumMismatch` issue.
pub const CHECKSUM_MISMATCH_TITLE: &'static str = "Outdated cached files";

/// Description of the `ChecksumMismatch` issue.
pub const CHECKSUM_MISMATCH_DESCRIPTION: &'static str = "It looks like you need to delete cached files.
				To do that, press Folders ⟶ View Launcher Root Folder, and **after closing the launcher** delete the folder named \"meta\".";

/// Title of the `NvidiaLinux` issue.
pub const NVIDIA_LINUX_TITLE: &'static str = "Nvidia drivers on Linux";

/// Description of the `NvidiaLinux` issue.
pub const NVIDIA_LINUX_DESCRIPTION: &'static str = "Nvidia drivers will often cause crashes on Linux.
				To fix it, go to Settings ⟶ Enviroment variables and set `__GL_THREADED_OPTIMIZATIONS` to `0`.";

/// Title of the `LinuxOpenal` issue.
pub const LINUX_OPENAL_TITLE: &'static str = "Missing .alsoftrc";

/// Description of the `LinuxOpenal` issue.
pub const LINUX_OPENAL_DESCRIPTION: &'static str = "OpenAL is likely missing the configuration file.
				To fix this, create a file named `.alsoftrc` in your home directory by running this command in your terminal:
				```
echo -e \"drivers=alsa\\nhrtf=true\" > ~/.alsoftrc```";

/// Title of the `X11ConnectFailure` issue.
pub const X11_CONNECT_FAILURE_TITLE: &'static str = "Flatpak crash";

/// Description of the `X11ConnectFailure` issue.
pub const X11_CONNECT_FAILURE_DESCRIPTION: &'static str = "To fix this crash, disable \"Fallback to X11 Windowing System\" in Flatseal.";

/// Title of the `OldJavaMacOs` issue.
pub const OLD_JAVA_MAC_OS_TITLE: &'static str = "Old Java on MacOS";

/// Description of the `OldJavaMacOs` issue.
pub const OLD_JAVA_MAC_OS_DESCRIPTION: &'static str = "This crash is caused by an old Java version conflicting with mods, most often Spark, on MacOS.
				To fix it, either remove Spark or update Java by going to Edit > Settings > Download Java > Adoptium, and selecting the new Java version via Auto-Detect.";

/// Title of the `MissingXrandr` issue.
pub const MISSING_XRANDR_TITLE: &'static str = "Missing xrandr";

/// Description of the `MissingXrandr` issue.
pub const MISSING_XRANDR_DESCRIPTION: &'static str = "This crash is caused by not having xrandr installed on Linux on Minecraft versions that use LWJGL 2.";

/// Title of the `InstanceDataCorrupted` issue.
pub const INSTANCE_DATA_CORRUPTED_TITLE: &'static str = "Corrupted instance files";

/// Description of the `InstanceDataCorrupted` issue.
pub const INSTANCE_DATA_CORRUPTED_DESCRIPTION: &'static str = "Your instance's `mmc-pack.json` appears to be corrupted. Make a new instance and copy over your data between `.minecraft` folders. To prevent this in the future, ensure your system has sufficient disk space and avoid forcefully shutting down your PC.";

/// Title of the `InvalidProxy` issue.
pub const INVALID_PROXY_TITLE: &'static str = "Invalid proxy configuration";

/// Description of the `InvalidProxy` issue.
pub const INVALID_PROXY_DESCRIPTION: &'static str = "Your proxy configuration in Prism settings seems to be incorrect.
				Try undoing it by selecing \"None\" in top toolbar > **Settings** > **Proxy**.";

/// Title of a `JavaOption` issue for the ShenandoahGC flag.
pub const SHENANDOAH_TITLE: &'static str = "Java 8 and below don't support ShenandoahGC";

/// Title of any other `JavaOption` issue.
pub const WRONG_JAVA_ARGUMENTS_TITLE: &'static str = "Wrong Java Arguments";

/// Title of a `WrongJava` issue.
pub const WRONG_JAVA_TITLE: &'static str = "Wrong Java Version";

/// Description of the `LockedJars` issue.
pub const LOCKED_JARS_DESCRIPTION: &'static str = "Something is locking your library jars.";

/// Description of the `MissingLibraries` issue.
pub const MISSING_LIBRARIES_DESCRIPTION: &'static str = "You seem to be missing libraries. This is usually caused by launching offline before they can be downloaded.
				To fix this, first ensure you are connected to the internet. Then, try selecting Edit > Version > Download All and launching your instance again.
				If Minecraft is getting launched offline by default, it's possible your token got expired. To fix this, remove and add back your Microsoft account.";

} // verus!
