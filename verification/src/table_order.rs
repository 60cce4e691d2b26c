//! What holds of the table of known systems: its names stand in strictly
//! ascending order, so that no name stands in it twice, and each of them
//! belongs to a group with colours.

use crate::order::{decided_at, lemma_precedes_asymmetric, lemma_precedes_transitive, precedes};
use crate::table::{alias_entry, group_colors, ALIAS_COUNT, GROUP_COUNT};
use vstd::prelude::*;

verus! {

proof fn lemma_ascending_0(i: int)
    requires
        0 <= i < 32,
    ensures
        precedes(alias_entry(i).0, alias_entry(i + 1).0),
{
    if i == 0 {
        reveal_strlit("adelie");
        reveal_strlit("ad\u{c3}\u{a9}lie");
        assert(decided_at("adelie"@, "ad\u{c3}\u{a9}lie"@, 2));
    } else if i == 1 {
        reveal_strlit("ad\u{c3}\u{a9}lie");
        reveal_strlit("aeros");
        assert(decided_at("ad\u{c3}\u{a9}lie"@, "aeros"@, 1));
    } else if i == 2 {
        reveal_strlit("aeros");
        reveal_strlit("afterglow");
        assert(decided_at("aeros"@, "afterglow"@, 1));
    } else if i == 3 {
        reveal_strlit("afterglow");
        reveal_strlit("aix");
        assert(decided_at("afterglow"@, "aix"@, 1));
    } else if i == 4 {
        reveal_strlit("aix");
        reveal_strlit("almalinux");
        assert(decided_at("aix"@, "almalinux"@, 1));
    } else if i == 5 {
        reveal_strlit("almalinux");
        reveal_strlit("alpine");
        assert(decided_at("almalinux"@, "alpine"@, 2));
    } else if i == 6 {
        reveal_strlit("alpine");
        reveal_strlit("alpine-linux");
        assert(decided_at("alpine"@, "alpine-linux"@, 6));
    } else if i == 7 {
        reveal_strlit("alpine-linux");
        reveal_strlit("alpine-linux-small");
        assert(decided_at("alpine-linux"@, "alpine-linux-small"@, 12));
    } else if i == 8 {
        reveal_strlit("alpine-linux-small");
        reveal_strlit("alpine-linux2-small");
        assert(decided_at("alpine-linux-small"@, "alpine-linux2-small"@, 12));
    } else if i == 9 {
        reveal_strlit("alpine-linux2-small");
        reveal_strlit("alpine2_small");
        assert(decided_at("alpine-linux2-small"@, "alpine2_small"@, 6));
    } else if i == 10 {
        reveal_strlit("alpine2_small");
        reveal_strlit("alpine_small");
        assert(decided_at("alpine2_small"@, "alpine_small"@, 6));
    } else if i == 11 {
        reveal_strlit("alpine_small");
        reveal_strlit("alpinelinux");
        assert(decided_at("alpine_small"@, "alpinelinux"@, 6));
    } else if i == 12 {
        reveal_strlit("alpinelinux");
        reveal_strlit("alter");
        assert(decided_at("alpinelinux"@, "alter"@, 2));
    } else if i == 13 {
        reveal_strlit("alter");
        reveal_strlit("amazon");
        assert(decided_at("alter"@, "amazon"@, 1));
    } else if i == 14 {
        reveal_strlit("amazon");
        reveal_strlit("anarchy");
        assert(decided_at("amazon"@, "anarchy"@, 1));
    } else if i == 15 {
        reveal_strlit("anarchy");
        reveal_strlit("android");
        assert(decided_at("anarchy"@, "android"@, 2));
    } else if i == 16 {
        reveal_strlit("android");
        reveal_strlit("antergos");
        assert(decided_at("android"@, "antergos"@, 2));
    } else if i == 17 {
        reveal_strlit("antergos");
        reveal_strlit("antiX");
        assert(decided_at("antergos"@, "antiX"@, 3));
    } else if i == 18 {
        reveal_strlit("antiX");
        reveal_strlit("antix");
        assert(decided_at("antiX"@, "antix"@, 4));
    } else if i == 19 {
        reveal_strlit("antix");
        reveal_strlit("aosc");
        assert(decided_at("antix"@, "aosc"@, 1));
    } else if i == 20 {
        reveal_strlit("aosc");
        reveal_strlit("aosc-os");
        assert(decided_at("aosc"@, "aosc-os"@, 4));
    } else if i == 21 {
        reveal_strlit("aosc-os");
        reveal_strlit("aosc_os");
        assert(decided_at("aosc-os"@, "aosc_os"@, 4));
    } else if i == 22 {
        reveal_strlit("aosc_os");
        reveal_strlit("aperture");
        assert(decided_at("aosc_os"@, "aperture"@, 1));
    } else if i == 23 {
        reveal_strlit("aperture");
        reveal_strlit("apricity");
        assert(decided_at("aperture"@, "apricity"@, 2));
    } else if i == 24 {
        reveal_strlit("apricity");
        reveal_strlit("arch");
        assert(decided_at("apricity"@, "arch"@, 1));
    } else if i == 25 {
        reveal_strlit("arch");
        reveal_strlit("arch-linux");
        assert(decided_at("arch"@, "arch-linux"@, 4));
    } else if i == 26 {
        reveal_strlit("arch-linux");
        reveal_strlit("archcraft");
        assert(decided_at("arch-linux"@, "archcraft"@, 4));
    } else if i == 27 {
        reveal_strlit("archcraft");
        reveal_strlit("archlinux");
        assert(decided_at("archcraft"@, "archlinux"@, 4));
    } else if i == 28 {
        reveal_strlit("archlinux");
        reveal_strlit("archmerge");
        assert(decided_at("archlinux"@, "archmerge"@, 4));
    } else if i == 29 {
        reveal_strlit("archmerge");
        reveal_strlit("arcolinux");
        assert(decided_at("archmerge"@, "arcolinux"@, 3));
    } else if i == 30 {
        reveal_strlit("arcolinux");
        reveal_strlit("arkane");
        assert(decided_at("arcolinux"@, "arkane"@, 2));
    } else {
        reveal_strlit("arkane");
        reveal_strlit("arkanelinux");
        assert(decided_at("arkane"@, "arkanelinux"@, 6));
    }
}

proof fn lemma_ascending_1(i: int)
    requires
        32 <= i < 64,
    ensures
        precedes(alias_entry(i).0, alias_entry(i + 1).0),
{
    if i == 32 {
        reveal_strlit("arkanelinux");
        reveal_strlit("armbian");
        assert(decided_at("arkanelinux"@, "armbian"@, 2));
    } else if i == 33 {
        reveal_strlit("armbian");
        reveal_strlit("artix");
        assert(decided_at("armbian"@, "artix"@, 2));
    } else if i == 34 {
        reveal_strlit("artix");
        reveal_strlit("artixlinux");
        assert(decided_at("artix"@, "artixlinux"@, 5));
    } else if i == 35 {
        reveal_strlit("artixlinux");
        reveal_strlit("arya");
        assert(decided_at("artixlinux"@, "arya"@, 2));
    } else if i == 36 {
        reveal_strlit("arya");
        reveal_strlit("astOS");
        assert(decided_at("arya"@, "astOS"@, 1));
    } else if i == 37 {
        reveal_strlit("astOS");
        reveal_strlit("aster");
        assert(decided_at("astOS"@, "aster"@, 3));
    } else if i == 38 {
        reveal_strlit("aster");
        reveal_strlit("asteroidos");
        assert(decided_at("aster"@, "asteroidos"@, 5));
    } else if i == 39 {
        reveal_strlit("asteroidos");
        reveal_strlit("astos");
        assert(decided_at("asteroidos"@, "astos"@, 3));
    } else if i == 40 {
        reveal_strlit("astos");
        reveal_strlit("astra");
        assert(decided_at("astos"@, "astra"@, 3));
    } else if i == 41 {
        reveal_strlit("astra");
        reveal_strlit("astra linux");
        assert(decided_at("astra"@, "astra linux"@, 5));
    } else if i == 42 {
        reveal_strlit("astra linux");
        reveal_strlit("astra_linux");
        assert(decided_at("astra linux"@, "astra_linux"@, 5));
    } else if i == 43 {
        reveal_strlit("astra_linux");
        reveal_strlit("athena");
        assert(decided_at("astra_linux"@, "athena"@, 1));
    } else if i == 44 {
        reveal_strlit("athena");
        reveal_strlit("athenaOS");
        assert(decided_at("athena"@, "athenaOS"@, 6));
    } else if i == 45 {
        reveal_strlit("athenaOS");
        reveal_strlit("athenaos");
        assert(decided_at("athenaOS"@, "athenaos"@, 6));
    } else if i == 46 {
        reveal_strlit("athenaos");
        reveal_strlit("azos");
        assert(decided_at("athenaos"@, "azos"@, 1));
    } else if i == 47 {
        reveal_strlit("azos");
        reveal_strlit("backarcher");
        assert(decided_at("azos"@, "backarcher"@, 0));
    } else if i == 48 {
        reveal_strlit("backarcher");
        reveal_strlit("bedrock");
        assert(decided_at("backarcher"@, "bedrock"@, 1));
    } else if i == 49 {
        reveal_strlit("bedrock");
        reveal_strlit("biglinux");
        assert(decided_at("bedrock"@, "biglinux"@, 1));
    } else if i == 50 {
        reveal_strlit("biglinux");
        reveal_strlit("bitrig");
        assert(decided_at("biglinux"@, "bitrig"@, 2));
    } else if i == 51 {
        reveal_strlit("bitrig");
        reveal_strlit("black-mesa");
        assert(decided_at("bitrig"@, "black-mesa"@, 1));
    } else if i == 52 {
        reveal_strlit("black-mesa");
        reveal_strlit("blackarch");
        assert(decided_at("black-mesa"@, "blackarch"@, 5));
    } else if i == 53 {
        reveal_strlit("blackarch");
        reveal_strlit("blackmesa");
        assert(decided_at("blackarch"@, "blackmesa"@, 5));
    } else if i == 54 {
        reveal_strlit("blackmesa");
        reveal_strlit("blackpanther");
        assert(decided_at("blackmesa"@, "blackpanther"@, 5));
    } else if i == 55 {
        reveal_strlit("blackpanther");
        reveal_strlit("blag");
        assert(decided_at("blackpanther"@, "blag"@, 3));
    } else if i == 56 {
        reveal_strlit("blag");
        reveal_strlit("blankon");
        assert(decided_at("blag"@, "blankon"@, 3));
    } else if i == 57 {
        reveal_strlit("blankon");
        reveal_strlit("bluelight");
        assert(decided_at("blankon"@, "bluelight"@, 2));
    } else if i == 58 {
        reveal_strlit("bluelight");
        reveal_strlit("bodhi");
        assert(decided_at("bluelight"@, "bodhi"@, 1));
    } else if i == 59 {
        reveal_strlit("bodhi");
        reveal_strlit("bonsai");
        assert(decided_at("bodhi"@, "bonsai"@, 2));
    } else if i == 60 {
        reveal_strlit("bonsai");
        reveal_strlit("bsd");
        assert(decided_at("bonsai"@, "bsd"@, 1));
    } else if i == 61 {
        reveal_strlit("bsd");
        reveal_strlit("bunsenlabs");
        assert(decided_at("bsd"@, "bunsenlabs"@, 1));
    } else if i == 62 {
        reveal_strlit("bunsenlabs");
        reveal_strlit("cachyos");
        assert(decided_at("bunsenlabs"@, "cachyos"@, 0));
    } else {
        reveal_strlit("cachyos");
        reveal_strlit("calculate");
        assert(decided_at("cachyos"@, "calculate"@, 2));
    }
}

proof fn lemma_ascending_2(i: int)
    requires
        64 <= i < 96,
    ensures
        precedes(alias_entry(i).0, alias_entry(i + 1).0),
{
    if i == 64 {
        reveal_strlit("calculate");
        reveal_strlit("calculatelinux");
        assert(decided_at("calculate"@, "calculatelinux"@, 9));
    } else if i == 65 {
        reveal_strlit("calculatelinux");
        reveal_strlit("calinixos");
        assert(decided_at("calculatelinux"@, "calinixos"@, 3));
    } else if i == 66 {
        reveal_strlit("calinixos");
        reveal_strlit("carbs");
        assert(decided_at("calinixos"@, "carbs"@, 2));
    } else if i == 67 {
        reveal_strlit("carbs");
        reveal_strlit("cbpp");
        assert(decided_at("carbs"@, "cbpp"@, 1));
    } else if i == 68 {
        reveal_strlit("cbpp");
        reveal_strlit("centos");
        assert(decided_at("cbpp"@, "centos"@, 1));
    } else if i == 69 {
        reveal_strlit("centos");
        reveal_strlit("cereus");
        assert(decided_at("centos"@, "cereus"@, 2));
    } else if i == 70 {
        reveal_strlit("cereus");
        reveal_strlit("cereus linux");
        assert(decided_at("cereus"@, "cereus linux"@, 6));
    } else if i == 71 {
        reveal_strlit("cereus linux");
        reveal_strlit("chakra");
        assert(decided_at("cereus linux"@, "chakra"@, 1));
    } else if i == 72 {
        reveal_strlit("chakra");
        reveal_strlit("chaletos");
        assert(decided_at("chakra"@, "chaletos"@, 3));
    } else if i == 73 {
        reveal_strlit("chaletos");
        reveal_strlit("chapeau");
        assert(decided_at("chaletos"@, "chapeau"@, 3));
    } else if i == 74 {
        reveal_strlit("chapeau");
        reveal_strlit("chimera linux");
        assert(decided_at("chapeau"@, "chimera linux"@, 2));
    } else if i == 75 {
        reveal_strlit("chimera linux");
        reveal_strlit("chonkysealos");
        assert(decided_at("chimera linux"@, "chonkysealos"@, 2));
    } else if i == 76 {
        reveal_strlit("chonkysealos");
        reveal_strlit("cleanjaro");
        assert(decided_at("chonkysealos"@, "cleanjaro"@, 1));
    } else if i == 77 {
        reveal_strlit("cleanjaro");
        reveal_strlit("clear-linux-os");
        assert(decided_at("cleanjaro"@, "clear-linux-os"@, 4));
    } else if i == 78 {
        reveal_strlit("clear-linux-os");
        reveal_strlit("clear_linux");
        assert(decided_at("clear-linux-os"@, "clear_linux"@, 5));
    } else if i == 79 {
        reveal_strlit("clear_linux");
        reveal_strlit("clearos");
        assert(decided_at("clear_linux"@, "clearos"@, 5));
    } else if i == 80 {
        reveal_strlit("clearos");
        reveal_strlit("clover");
        assert(decided_at("clearos"@, "clover"@, 2));
    } else if i == 81 {
        reveal_strlit("clover");
        reveal_strlit("cobalt");
        assert(decided_at("clover"@, "cobalt"@, 1));
    } else if i == 82 {
        reveal_strlit("cobalt");
        reveal_strlit("condres");
        assert(decided_at("cobalt"@, "condres"@, 2));
    } else if i == 83 {
        reveal_strlit("condres");
        reveal_strlit("container_linux");
        assert(decided_at("condres"@, "container_linux"@, 3));
    } else if i == 84 {
        reveal_strlit("container_linux");
        reveal_strlit("coreos");
        assert(decided_at("container_linux"@, "coreos"@, 2));
    } else if i == 85 {
        reveal_strlit("coreos");
        reveal_strlit("crunchbangplusplus");
        assert(decided_at("coreos"@, "crunchbangplusplus"@, 1));
    } else if i == 86 {
        reveal_strlit("crunchbangplusplus");
        reveal_strlit("crystal");
        assert(decided_at("crunchbangplusplus"@, "crystal"@, 2));
    } else if i == 87 {
        reveal_strlit("crystal");
        reveal_strlit("crystal linux");
        assert(decided_at("crystal"@, "crystal linux"@, 7));
    } else if i == 88 {
        reveal_strlit("crystal linux");
        reveal_strlit("dahlia");
        assert(decided_at("crystal linux"@, "dahlia"@, 0));
    } else if i == 89 {
        reveal_strlit("dahlia");
        reveal_strlit("debian");
        assert(decided_at("dahlia"@, "debian"@, 1));
    } else if i == 90 {
        reveal_strlit("debian");
        reveal_strlit("deepin");
        assert(decided_at("debian"@, "deepin"@, 2));
    } else if i == 91 {
        reveal_strlit("deepin");
        reveal_strlit("desaos");
        assert(decided_at("deepin"@, "desaos"@, 2));
    } else if i == 92 {
        reveal_strlit("desaos");
        reveal_strlit("devuan");
        assert(decided_at("desaos"@, "devuan"@, 2));
    } else if i == 93 {
        reveal_strlit("devuan");
        reveal_strlit("dietpi");
        assert(decided_at("devuan"@, "dietpi"@, 1));
    } else if i == 94 {
        reveal_strlit("dietpi");
        reveal_strlit("dragonfly");
        assert(decided_at("dietpi"@, "dragonfly"@, 1));
    } else {
        reveal_strlit("dragonfly");
        reveal_strlit("dragonflybsd");
        assert(decided_at("dragonfly"@, "dragonflybsd"@, 9));
    }
}

proof fn lemma_ascending_3(i: int)
    requires
        96 <= i < 128,
    ensures
        precedes(alias_entry(i).0, alias_entry(i + 1).0),
{
    if i == 96 {
        reveal_strlit("dragonflybsd");
        reveal_strlit("drauger");
        assert(decided_at("dragonflybsd"@, "drauger"@, 3));
    } else if i == 97 {
        reveal_strlit("drauger");
        reveal_strlit("droidian");
        assert(decided_at("drauger"@, "droidian"@, 2));
    } else if i == 98 {
        reveal_strlit("droidian");
        reveal_strlit("elementary");
        assert(decided_at("droidian"@, "elementary"@, 0));
    } else if i == 99 {
        reveal_strlit("elementary");
        reveal_strlit("elementaryos");
        assert(decided_at("elementary"@, "elementaryos"@, 10));
    } else if i == 100 {
        reveal_strlit("elementaryos");
        reveal_strlit("elive");
        assert(decided_at("elementaryos"@, "elive"@, 2));
    } else if i == 101 {
        reveal_strlit("elive");
        reveal_strlit("endeavour");
        assert(decided_at("elive"@, "endeavour"@, 1));
    } else if i == 102 {
        reveal_strlit("endeavour");
        reveal_strlit("endeavouros");
        assert(decided_at("endeavour"@, "endeavouros"@, 9));
    } else if i == 103 {
        reveal_strlit("endeavouros");
        reveal_strlit("endless");
        assert(decided_at("endeavouros"@, "endless"@, 3));
    } else if i == 104 {
        reveal_strlit("endless");
        reveal_strlit("enso");
        assert(decided_at("endless"@, "enso"@, 2));
    } else if i == 105 {
        reveal_strlit("enso");
        reveal_strlit("eshanizedos");
        assert(decided_at("enso"@, "eshanizedos"@, 1));
    } else if i == 106 {
        reveal_strlit("eshanizedos");
        reveal_strlit("eurolinux");
        assert(decided_at("eshanizedos"@, "eurolinux"@, 1));
    } else if i == 107 {
        reveal_strlit("eurolinux");
        reveal_strlit("exherbo");
        assert(decided_at("eurolinux"@, "exherbo"@, 1));
    } else if i == 108 {
        reveal_strlit("exherbo");
        reveal_strlit("fedora");
        assert(decided_at("exherbo"@, "fedora"@, 0));
    } else if i == 109 {
        reveal_strlit("fedora");
        reveal_strlit("femboyos");
        assert(decided_at("fedora"@, "femboyos"@, 2));
    } else if i == 110 {
        reveal_strlit("femboyos");
        reveal_strlit("feren");
        assert(decided_at("femboyos"@, "feren"@, 2));
    } else if i == 111 {
        reveal_strlit("feren");
        reveal_strlit("finnix");
        assert(decided_at("feren"@, "finnix"@, 1));
    } else if i == 112 {
        reveal_strlit("finnix");
        reveal_strlit("freebsd");
        assert(decided_at("finnix"@, "freebsd"@, 1));
    } else if i == 113 {
        reveal_strlit("freebsd");
        reveal_strlit("freemint");
        assert(decided_at("freebsd"@, "freemint"@, 4));
    } else if i == 114 {
        reveal_strlit("freemint");
        reveal_strlit("frugalware");
        assert(decided_at("freemint"@, "frugalware"@, 2));
    } else if i == 115 {
        reveal_strlit("frugalware");
        reveal_strlit("funtoo");
        assert(decided_at("frugalware"@, "funtoo"@, 1));
    } else if i == 116 {
        reveal_strlit("funtoo");
        reveal_strlit("furretos");
        assert(decided_at("funtoo"@, "furretos"@, 2));
    } else if i == 117 {
        reveal_strlit("furretos");
        reveal_strlit("galliumos");
        assert(decided_at("furretos"@, "galliumos"@, 0));
    } else if i == 118 {
        reveal_strlit("galliumos");
        reveal_strlit("garuda");
        assert(decided_at("galliumos"@, "garuda"@, 2));
    } else if i == 119 {
        reveal_strlit("garuda");
        reveal_strlit("gentoo");
        assert(decided_at("garuda"@, "gentoo"@, 1));
    } else if i == 120 {
        reveal_strlit("gentoo");
        reveal_strlit("gnewsense");
        assert(decided_at("gentoo"@, "gnewsense"@, 1));
    } else if i == 121 {
        reveal_strlit("gnewsense");
        reveal_strlit("gnome");
        assert(decided_at("gnewsense"@, "gnome"@, 2));
    } else if i == 122 {
        reveal_strlit("gnome");
        reveal_strlit("gnu");
        assert(decided_at("gnome"@, "gnu"@, 2));
    } else if i == 123 {
        reveal_strlit("gnu");
        reveal_strlit("gobolinux");
        assert(decided_at("gnu"@, "gobolinux"@, 1));
    } else if i == 124 {
        reveal_strlit("gobolinux");
        reveal_strlit("grapheneos");
        assert(decided_at("gobolinux"@, "grapheneos"@, 1));
    } else if i == 125 {
        reveal_strlit("grapheneos");
        reveal_strlit("grombyang");
        assert(decided_at("grapheneos"@, "grombyang"@, 2));
    } else if i == 126 {
        reveal_strlit("grombyang");
        reveal_strlit("guix");
        assert(decided_at("grombyang"@, "guix"@, 1));
    } else {
        reveal_strlit("guix");
        reveal_strlit("haiku");
        assert(decided_at("guix"@, "haiku"@, 0));
    }
}

proof fn lemma_ascending_4(i: int)
    requires
        128 <= i < 160,
    ensures
        precedes(alias_entry(i).0, alias_entry(i + 1).0),
{
    if i == 128 {
        reveal_strlit("haiku");
        reveal_strlit("hamara");
        assert(decided_at("haiku"@, "hamara"@, 2));
    } else if i == 129 {
        reveal_strlit("hamara");
        reveal_strlit("hardenedbsd");
        assert(decided_at("hamara"@, "hardenedbsd"@, 2));
    } else if i == 130 {
        reveal_strlit("hardenedbsd");
        reveal_strlit("hash");
        assert(decided_at("hardenedbsd"@, "hash"@, 2));
    } else if i == 131 {
        reveal_strlit("hash");
        reveal_strlit("huayra");
        assert(decided_at("hash"@, "huayra"@, 1));
    } else if i == 132 {
        reveal_strlit("huayra");
        reveal_strlit("hydroOS");
        assert(decided_at("huayra"@, "hydroOS"@, 1));
    } else if i == 133 {
        reveal_strlit("hydroOS");
        reveal_strlit("hydroos");
        assert(decided_at("hydroOS"@, "hydroos"@, 5));
    } else if i == 134 {
        reveal_strlit("hydroos");
        reveal_strlit("hyperbola");
        assert(decided_at("hydroos"@, "hyperbola"@, 2));
    } else if i == 135 {
        reveal_strlit("hyperbola");
        reveal_strlit("iglunix");
        assert(decided_at("hyperbola"@, "iglunix"@, 0));
    } else if i == 136 {
        reveal_strlit("iglunix");
        reveal_strlit("instantos");
        assert(decided_at("iglunix"@, "instantos"@, 1));
    } else if i == 137 {
        reveal_strlit("instantos");
        reveal_strlit("interix");
        assert(decided_at("instantos"@, "interix"@, 2));
    } else if i == 138 {
        reveal_strlit("interix");
        reveal_strlit("irix");
        assert(decided_at("interix"@, "irix"@, 1));
    } else if i == 139 {
        reveal_strlit("irix");
        reveal_strlit("januslinux");
        assert(decided_at("irix"@, "januslinux"@, 0));
    } else if i == 140 {
        reveal_strlit("januslinux");
        reveal_strlit("kaisen");
        assert(decided_at("januslinux"@, "kaisen"@, 0));
    } else if i == 141 {
        reveal_strlit("kaisen");
        reveal_strlit("kali");
        assert(decided_at("kaisen"@, "kali"@, 2));
    } else if i == 142 {
        reveal_strlit("kali");
        reveal_strlit("kaos");
        assert(decided_at("kali"@, "kaos"@, 2));
    } else if i == 143 {
        reveal_strlit("kaos");
        reveal_strlit("kde");
        assert(decided_at("kaos"@, "kde"@, 1));
    } else if i == 144 {
        reveal_strlit("kde");
        reveal_strlit("kde-neon");
        assert(decided_at("kde"@, "kde-neon"@, 3));
    } else if i == 145 {
        reveal_strlit("kde-neon");
        reveal_strlit("kde_neon");
        assert(decided_at("kde-neon"@, "kde_neon"@, 3));
    } else if i == 146 {
        reveal_strlit("kde_neon");
        reveal_strlit("kdeneon");
        assert(decided_at("kde_neon"@, "kdeneon"@, 3));
    } else if i == 147 {
        reveal_strlit("kdeneon");
        reveal_strlit("kibojoe");
        assert(decided_at("kdeneon"@, "kibojoe"@, 1));
    } else if i == 148 {
        reveal_strlit("kibojoe");
        reveal_strlit("kiss");
        assert(decided_at("kibojoe"@, "kiss"@, 2));
    } else if i == 149 {
        reveal_strlit("kiss");
        reveal_strlit("kogaion");
        assert(decided_at("kiss"@, "kogaion"@, 1));
    } else if i == 150 {
        reveal_strlit("kogaion");
        reveal_strlit("korora");
        assert(decided_at("kogaion"@, "korora"@, 2));
    } else if i == 151 {
        reveal_strlit("korora");
        reveal_strlit("kubuntu");
        assert(decided_at("korora"@, "kubuntu"@, 1));
    } else if i == 152 {
        reveal_strlit("kubuntu");
        reveal_strlit("laxeros");
        assert(decided_at("kubuntu"@, "laxeros"@, 0));
    } else if i == 153 {
        reveal_strlit("laxeros");
        reveal_strlit("lede");
        assert(decided_at("laxeros"@, "lede"@, 1));
    } else if i == 154 {
        reveal_strlit("lede");
        reveal_strlit("libreelec");
        assert(decided_at("lede"@, "libreelec"@, 1));
    } else if i == 155 {
        reveal_strlit("libreelec");
        reveal_strlit("lingmo");
        assert(decided_at("libreelec"@, "lingmo"@, 2));
    } else if i == 156 {
        reveal_strlit("lingmo");
        reveal_strlit("lingmo os");
        assert(decided_at("lingmo"@, "lingmo os"@, 6));
    } else if i == 157 {
        reveal_strlit("lingmo os");
        reveal_strlit("lingmo_os");
        assert(decided_at("lingmo os"@, "lingmo_os"@, 6));
    } else if i == 158 {
        reveal_strlit("lingmo_os");
        reveal_strlit("linux");
        assert(decided_at("lingmo_os"@, "linux"@, 3));
    } else {
        reveal_strlit("linux");
        reveal_strlit("linux mint");
        assert(decided_at("linux"@, "linux mint"@, 5));
    }
}

proof fn lemma_ascending_5(i: int)
    requires
        160 <= i < 192,
    ensures
        precedes(alias_entry(i).0, alias_entry(i + 1).0),
{
    if i == 160 {
        reveal_strlit("linux mint");
        reveal_strlit("linux-lite");
        assert(decided_at("linux mint"@, "linux-lite"@, 5));
    } else if i == 161 {
        reveal_strlit("linux-lite");
        reveal_strlit("linux_lite");
        assert(decided_at("linux-lite"@, "linux_lite"@, 5));
    } else if i == 162 {
        reveal_strlit("linux_lite");
        reveal_strlit("linuxlite");
        assert(decided_at("linux_lite"@, "linuxlite"@, 5));
    } else if i == 163 {
        reveal_strlit("linuxlite");
        reveal_strlit("linuxmint");
        assert(decided_at("linuxlite"@, "linuxmint"@, 5));
    } else if i == 164 {
        reveal_strlit("linuxmint");
        reveal_strlit("lmde");
        assert(decided_at("linuxmint"@, "lmde"@, 1));
    } else if i == 165 {
        reveal_strlit("lmde");
        reveal_strlit("lubuntu");
        assert(decided_at("lmde"@, "lubuntu"@, 1));
    } else if i == 166 {
        reveal_strlit("lubuntu");
        reveal_strlit("mageia");
        assert(decided_at("lubuntu"@, "mageia"@, 0));
    } else if i == 167 {
        reveal_strlit("mageia");
        reveal_strlit("magpieos");
        assert(decided_at("mageia"@, "magpieos"@, 3));
    } else if i == 168 {
        reveal_strlit("magpieos");
        reveal_strlit("mainsailos");
        assert(decided_at("magpieos"@, "mainsailos"@, 2));
    } else if i == 169 {
        reveal_strlit("mainsailos");
        reveal_strlit("manjaro");
        assert(decided_at("mainsailos"@, "manjaro"@, 2));
    } else if i == 170 {
        reveal_strlit("manjaro");
        reveal_strlit("massos");
        assert(decided_at("manjaro"@, "massos"@, 2));
    } else if i == 171 {
        reveal_strlit("massos");
        reveal_strlit("maui");
        assert(decided_at("massos"@, "maui"@, 2));
    } else if i == 172 {
        reveal_strlit("maui");
        reveal_strlit("meowix");
        assert(decided_at("maui"@, "meowix"@, 1));
    } else if i == 173 {
        reveal_strlit("meowix");
        reveal_strlit("mer");
        assert(decided_at("meowix"@, "mer"@, 2));
    } else if i == 174 {
        reveal_strlit("mer");
        reveal_strlit("minios");
        assert(decided_at("mer"@, "minios"@, 1));
    } else if i == 175 {
        reveal_strlit("minios");
        reveal_strlit("mint");
        assert(decided_at("minios"@, "mint"@, 3));
    } else if i == 176 {
        reveal_strlit("mint");
        reveal_strlit("mint_old");
        assert(decided_at("mint"@, "mint_old"@, 4));
    } else if i == 177 {
        reveal_strlit("mint_old");
        reveal_strlit("miraclelinux");
        assert(decided_at("mint_old"@, "miraclelinux"@, 2));
    } else if i == 178 {
        reveal_strlit("miraclelinux");
        reveal_strlit("moeOS");
        assert(decided_at("miraclelinux"@, "moeOS"@, 1));
    } else if i == 179 {
        reveal_strlit("moeOS");
        reveal_strlit("moeos");
        assert(decided_at("moeOS"@, "moeos"@, 3));
    } else if i == 180 {
        reveal_strlit("moeos");
        reveal_strlit("monjaro");
        assert(decided_at("moeos"@, "monjaro"@, 2));
    } else if i == 181 {
        reveal_strlit("monjaro");
        reveal_strlit("morphos");
        assert(decided_at("monjaro"@, "morphos"@, 2));
    } else if i == 182 {
        reveal_strlit("morphos");
        reveal_strlit("mx");
        assert(decided_at("morphos"@, "mx"@, 1));
    } else if i == 183 {
        reveal_strlit("mx");
        reveal_strlit("mx-linux");
        assert(decided_at("mx"@, "mx-linux"@, 2));
    } else if i == 184 {
        reveal_strlit("mx-linux");
        reveal_strlit("mxlinux");
        assert(decided_at("mx-linux"@, "mxlinux"@, 2));
    } else if i == 185 {
        reveal_strlit("mxlinux");
        reveal_strlit("namib");
        assert(decided_at("mxlinux"@, "namib"@, 0));
    } else if i == 186 {
        reveal_strlit("namib");
        reveal_strlit("neon");
        assert(decided_at("namib"@, "neon"@, 1));
    } else if i == 187 {
        reveal_strlit("neon");
        reveal_strlit("neptune");
        assert(decided_at("neon"@, "neptune"@, 2));
    } else if i == 188 {
        reveal_strlit("neptune");
        reveal_strlit("netbsd");
        assert(decided_at("neptune"@, "netbsd"@, 2));
    } else if i == 189 {
        reveal_strlit("netbsd");
        reveal_strlit("netrunner");
        assert(decided_at("netbsd"@, "netrunner"@, 3));
    } else if i == 190 {
        reveal_strlit("netrunner");
        reveal_strlit("nitrux");
        assert(decided_at("netrunner"@, "nitrux"@, 1));
    } else {
        reveal_strlit("nitrux");
        reveal_strlit("nixos");
        assert(decided_at("nitrux"@, "nixos"@, 2));
    }
}

proof fn lemma_ascending_6(i: int)
    requires
        192 <= i < 224,
    ensures
        precedes(alias_entry(i).0, alias_entry(i + 1).0),
{
    if i == 192 {
        reveal_strlit("nixos");
        reveal_strlit("nurunner");
        assert(decided_at("nixos"@, "nurunner"@, 1));
    } else if i == 193 {
        reveal_strlit("nurunner");
        reveal_strlit("nutyx");
        assert(decided_at("nurunner"@, "nutyx"@, 2));
    } else if i == 194 {
        reveal_strlit("nutyx");
        reveal_strlit("nyaarch");
        assert(decided_at("nutyx"@, "nyaarch"@, 1));
    } else if i == 195 {
        reveal_strlit("nyaarch");
        reveal_strlit("obarun");
        assert(decided_at("nyaarch"@, "obarun"@, 0));
    } else if i == 196 {
        reveal_strlit("obarun");
        reveal_strlit("obrevenge");
        assert(decided_at("obarun"@, "obrevenge"@, 2));
    } else if i == 197 {
        reveal_strlit("obrevenge");
        reveal_strlit("omarine");
        assert(decided_at("obrevenge"@, "omarine"@, 1));
    } else if i == 198 {
        reveal_strlit("omarine");
        reveal_strlit("omnios");
        assert(decided_at("omarine"@, "omnios"@, 2));
    } else if i == 199 {
        reveal_strlit("omnios");
        reveal_strlit("open source media center");
        assert(decided_at("omnios"@, "open source media center"@, 1));
    } else if i == 200 {
        reveal_strlit("open source media center");
        reveal_strlit("open-mandriva");
        assert(decided_at("open source media center"@, "open-mandriva"@, 4));
    } else if i == 201 {
        reveal_strlit("open-mandriva");
        reveal_strlit("open-suse");
        assert(decided_at("open-mandriva"@, "open-suse"@, 5));
    } else if i == 202 {
        reveal_strlit("open-suse");
        reveal_strlit("open_mandriva");
        assert(decided_at("open-suse"@, "open_mandriva"@, 4));
    } else if i == 203 {
        reveal_strlit("open_mandriva");
        reveal_strlit("open_suse");
        assert(decided_at("open_mandriva"@, "open_suse"@, 5));
    } else if i == 204 {
        reveal_strlit("open_suse");
        reveal_strlit("openbsd");
        assert(decided_at("open_suse"@, "openbsd"@, 4));
    } else if i == 205 {
        reveal_strlit("openbsd");
        reveal_strlit("openeuler");
        assert(decided_at("openbsd"@, "openeuler"@, 4));
    } else if i == 206 {
        reveal_strlit("openeuler");
        reveal_strlit("openindiana");
        assert(decided_at("openeuler"@, "openindiana"@, 4));
    } else if i == 207 {
        reveal_strlit("openindiana");
        reveal_strlit("openmandriva");
        assert(decided_at("openindiana"@, "openmandriva"@, 4));
    } else if i == 208 {
        reveal_strlit("openmandriva");
        reveal_strlit("openmandriva lx");
        assert(decided_at("openmandriva"@, "openmandriva lx"@, 12));
    } else if i == 209 {
        reveal_strlit("openmandriva lx");
        reveal_strlit("opensuse");
        assert(decided_at("openmandriva lx"@, "opensuse"@, 4));
    } else if i == 210 {
        reveal_strlit("opensuse");
        reveal_strlit("opensuse leap");
        assert(decided_at("opensuse"@, "opensuse leap"@, 8));
    } else if i == 211 {
        reveal_strlit("opensuse leap");
        reveal_strlit("opensuse leap_old");
        assert(decided_at("opensuse leap"@, "opensuse leap_old"@, 13));
    } else if i == 212 {
        reveal_strlit("opensuse leap_old");
        reveal_strlit("opensuse-microos");
        assert(decided_at("opensuse leap_old"@, "opensuse-microos"@, 8));
    } else if i == 213 {
        reveal_strlit("opensuse-microos");
        reveal_strlit("opensuse-slowroll");
        assert(decided_at("opensuse-microos"@, "opensuse-slowroll"@, 9));
    } else if i == 214 {
        reveal_strlit("opensuse-slowroll");
        reveal_strlit("opensuse-tumbleweed");
        assert(decided_at("opensuse-slowroll"@, "opensuse-tumbleweed"@, 9));
    } else if i == 215 {
        reveal_strlit("opensuse-tumbleweed");
        reveal_strlit("opensuse-tumbleweed-old");
        assert(decided_at("opensuse-tumbleweed"@, "opensuse-tumbleweed-old"@, 19));
    } else if i == 216 {
        reveal_strlit("opensuse-tumbleweed-old");
        reveal_strlit("opensuse-tumbleweed-slowroll");
        assert(decided_at("opensuse-tumbleweed-old"@, "opensuse-tumbleweed-slowroll"@, 20));
    } else if i == 217 {
        reveal_strlit("opensuse-tumbleweed-slowroll");
        reveal_strlit("opensuse_leap");
        assert(decided_at("opensuse-tumbleweed-slowroll"@, "opensuse_leap"@, 8));
    } else if i == 218 {
        reveal_strlit("opensuse_leap");
        reveal_strlit("opensuse_leap_old");
        assert(decided_at("opensuse_leap"@, "opensuse_leap_old"@, 13));
    } else if i == 219 {
        reveal_strlit("opensuse_leap_old");
        reveal_strlit("opensuse_microos");
        assert(decided_at("opensuse_leap_old"@, "opensuse_microos"@, 9));
    } else if i == 220 {
        reveal_strlit("opensuse_microos");
        reveal_strlit("opensuse_slowroll");
        assert(decided_at("opensuse_microos"@, "opensuse_slowroll"@, 9));
    } else if i == 221 {
        reveal_strlit("opensuse_slowroll");
        reveal_strlit("opensuse_tumbleweed");
        assert(decided_at("opensuse_slowroll"@, "opensuse_tumbleweed"@, 9));
    } else if i == 222 {
        reveal_strlit("opensuse_tumbleweed");
        reveal_strlit("opensuse_tumbleweed-old");
        assert(decided_at("opensuse_tumbleweed"@, "opensuse_tumbleweed-old"@, 19));
    } else {
        reveal_strlit("opensuse_tumbleweed-old");
        reveal_strlit("openwrt");
        assert(decided_at("opensuse_tumbleweed-old"@, "openwrt"@, 4));
    }
}

proof fn lemma_ascending_7(i: int)
    requires
        224 <= i < 256,
    ensures
        precedes(alias_entry(i).0, alias_entry(i + 1).0),
{
    if i == 224 {
        reveal_strlit("openwrt");
        reveal_strlit("opnsense");
        assert(decided_at("openwrt"@, "opnsense"@, 2));
    } else if i == 225 {
        reveal_strlit("opnsense");
        reveal_strlit("oracle");
        assert(decided_at("opnsense"@, "oracle"@, 1));
    } else if i == 226 {
        reveal_strlit("oracle");
        reveal_strlit("oracle linux");
        assert(decided_at("oracle"@, "oracle linux"@, 6));
    } else if i == 227 {
        reveal_strlit("oracle linux");
        reveal_strlit("oracle linux server");
        assert(decided_at("oracle linux"@, "oracle linux server"@, 12));
    } else if i == 228 {
        reveal_strlit("oracle linux server");
        reveal_strlit("oraclelinux");
        assert(decided_at("oracle linux server"@, "oraclelinux"@, 6));
    } else if i == 229 {
        reveal_strlit("oraclelinux");
        reveal_strlit("orchid");
        assert(decided_at("oraclelinux"@, "orchid"@, 2));
    } else if i == 230 {
        reveal_strlit("orchid");
        reveal_strlit("os elbrus");
        assert(decided_at("orchid"@, "os elbrus"@, 1));
    } else if i == 231 {
        reveal_strlit("os elbrus");
        reveal_strlit("os_elbrus");
        assert(decided_at("os elbrus"@, "os_elbrus"@, 2));
    } else if i == 232 {
        reveal_strlit("os_elbrus");
        reveal_strlit("osmc");
        assert(decided_at("os_elbrus"@, "osmc"@, 2));
    } else if i == 233 {
        reveal_strlit("osmc");
        reveal_strlit("osx");
        assert(decided_at("osmc"@, "osx"@, 2));
    } else if i == 234 {
        reveal_strlit("osx");
        reveal_strlit("pacbsd");
        assert(decided_at("osx"@, "pacbsd"@, 0));
    } else if i == 235 {
        reveal_strlit("pacbsd");
        reveal_strlit("panwah");
        assert(decided_at("pacbsd"@, "panwah"@, 2));
    } else if i == 236 {
        reveal_strlit("panwah");
        reveal_strlit("parabola");
        assert(decided_at("panwah"@, "parabola"@, 2));
    } else if i == 237 {
        reveal_strlit("parabola");
        reveal_strlit("pardus");
        assert(decided_at("parabola"@, "pardus"@, 3));
    } else if i == 238 {
        reveal_strlit("pardus");
        reveal_strlit("parrot");
        assert(decided_at("pardus"@, "parrot"@, 3));
    } else if i == 239 {
        reveal_strlit("parrot");
        reveal_strlit("parsix");
        assert(decided_at("parrot"@, "parsix"@, 3));
    } else if i == 240 {
        reveal_strlit("parsix");
        reveal_strlit("pear");
        assert(decided_at("parsix"@, "pear"@, 1));
    } else if i == 241 {
        reveal_strlit("pear");
        reveal_strlit("pearos");
        assert(decided_at("pear"@, "pearos"@, 4));
    } else if i == 242 {
        reveal_strlit("pearos");
        reveal_strlit("pengwin");
        assert(decided_at("pearos"@, "pengwin"@, 2));
    } else if i == 243 {
        reveal_strlit("pengwin");
        reveal_strlit("pentoo");
        assert(decided_at("pengwin"@, "pentoo"@, 3));
    } else if i == 244 {
        reveal_strlit("pentoo");
        reveal_strlit("peppermint");
        assert(decided_at("pentoo"@, "peppermint"@, 2));
    } else if i == 245 {
        reveal_strlit("peppermint");
        reveal_strlit("peropesis");
        assert(decided_at("peppermint"@, "peropesis"@, 2));
    } else if i == 246 {
        reveal_strlit("peropesis");
        reveal_strlit("peropesis linux");
        assert(decided_at("peropesis"@, "peropesis linux"@, 9));
    } else if i == 247 {
        reveal_strlit("peropesis linux");
        reveal_strlit("phyos");
        assert(decided_at("peropesis linux"@, "phyos"@, 1));
    } else if i == 248 {
        reveal_strlit("phyos");
        reveal_strlit("pika");
        assert(decided_at("phyos"@, "pika"@, 1));
    } else if i == 249 {
        reveal_strlit("pika");
        reveal_strlit("pikaos");
        assert(decided_at("pika"@, "pikaos"@, 4));
    } else if i == 250 {
        reveal_strlit("pikaos");
        reveal_strlit("pisi");
        assert(decided_at("pikaos"@, "pisi"@, 2));
    } else if i == 251 {
        reveal_strlit("pisi");
        reveal_strlit("pnm");
        assert(decided_at("pisi"@, "pnm"@, 1));
    } else if i == 252 {
        reveal_strlit("pnm");
        reveal_strlit("pnm linux");
        assert(decided_at("pnm"@, "pnm linux"@, 3));
    } else if i == 253 {
        reveal_strlit("pnm linux");
        reveal_strlit("pop");
        assert(decided_at("pnm linux"@, "pop"@, 1));
    } else if i == 254 {
        reveal_strlit("pop");
        reveal_strlit("pop!_os");
        assert(decided_at("pop"@, "pop!_os"@, 3));
    } else {
        reveal_strlit("pop!_os");
        reveal_strlit("pop_os");
        assert(decided_at("pop!_os"@, "pop_os"@, 3));
    }
}

proof fn lemma_ascending_8(i: int)
    requires
        256 <= i < 288,
    ensures
        precedes(alias_entry(i).0, alias_entry(i + 1).0),
{
    if i == 256 {
        reveal_strlit("pop_os");
        reveal_strlit("popos");
        assert(decided_at("pop_os"@, "popos"@, 3));
    } else if i == 257 {
        reveal_strlit("popos");
        reveal_strlit("porteus");
        assert(decided_at("popos"@, "porteus"@, 2));
    } else if i == 258 {
        reveal_strlit("porteus");
        reveal_strlit("postmarketos");
        assert(decided_at("porteus"@, "postmarketos"@, 2));
    } else if i == 259 {
        reveal_strlit("postmarketos");
        reveal_strlit("proxmox");
        assert(decided_at("postmarketos"@, "proxmox"@, 1));
    } else if i == 260 {
        reveal_strlit("proxmox");
        reveal_strlit("puffos");
        assert(decided_at("proxmox"@, "puffos"@, 1));
    } else if i == 261 {
        reveal_strlit("puffos");
        reveal_strlit("puppy");
        assert(decided_at("puffos"@, "puppy"@, 2));
    } else if i == 262 {
        reveal_strlit("puppy");
        reveal_strlit("pureos");
        assert(decided_at("puppy"@, "pureos"@, 2));
    } else if i == 263 {
        reveal_strlit("pureos");
        reveal_strlit("pve");
        assert(decided_at("pureos"@, "pve"@, 1));
    } else if i == 264 {
        reveal_strlit("pve");
        reveal_strlit("q4os");
        assert(decided_at("pve"@, "q4os"@, 0));
    } else if i == 265 {
        reveal_strlit("q4os");
        reveal_strlit("qubes");
        assert(decided_at("q4os"@, "qubes"@, 1));
    } else if i == 266 {
        reveal_strlit("qubes");
        reveal_strlit("qubyt");
        assert(decided_at("qubes"@, "qubyt"@, 3));
    } else if i == 267 {
        reveal_strlit("qubyt");
        reveal_strlit("quibian");
        assert(decided_at("qubyt"@, "quibian"@, 2));
    } else if i == 268 {
        reveal_strlit("quibian");
        reveal_strlit("radix");
        assert(decided_at("quibian"@, "radix"@, 0));
    } else if i == 269 {
        reveal_strlit("radix");
        reveal_strlit("raspbian");
        assert(decided_at("radix"@, "raspbian"@, 2));
    } else if i == 270 {
        reveal_strlit("raspbian");
        reveal_strlit("ravynos");
        assert(decided_at("raspbian"@, "ravynos"@, 2));
    } else if i == 271 {
        reveal_strlit("ravynos");
        reveal_strlit("reborn");
        assert(decided_at("ravynos"@, "reborn"@, 1));
    } else if i == 272 {
        reveal_strlit("reborn");
        reveal_strlit("reborn os");
        assert(decided_at("reborn"@, "reborn os"@, 6));
    } else if i == 273 {
        reveal_strlit("reborn os");
        reveal_strlit("reborn-os");
        assert(decided_at("reborn os"@, "reborn-os"@, 6));
    } else if i == 274 {
        reveal_strlit("reborn-os");
        reveal_strlit("rebornos");
        assert(decided_at("reborn-os"@, "rebornos"@, 6));
    } else if i == 275 {
        reveal_strlit("rebornos");
        reveal_strlit("red os");
        assert(decided_at("rebornos"@, "red os"@, 2));
    } else if i == 276 {
        reveal_strlit("red os");
        reveal_strlit("red-os");
        assert(decided_at("red os"@, "red-os"@, 3));
    } else if i == 277 {
        reveal_strlit("red-os");
        reveal_strlit("red_star");
        assert(decided_at("red-os"@, "red_star"@, 3));
    } else if i == 278 {
        reveal_strlit("red_star");
        reveal_strlit("redcore");
        assert(decided_at("red_star"@, "redcore"@, 3));
    } else if i == 279 {
        reveal_strlit("redcore");
        reveal_strlit("redhat");
        assert(decided_at("redcore"@, "redhat"@, 3));
    } else if i == 280 {
        reveal_strlit("redhat");
        reveal_strlit("redhat enterprise linux");
        assert(decided_at("redhat"@, "redhat enterprise linux"@, 6));
    } else if i == 281 {
        reveal_strlit("redhat enterprise linux");
        reveal_strlit("redos");
        assert(decided_at("redhat enterprise linux"@, "redos"@, 3));
    } else if i == 282 {
        reveal_strlit("redos");
        reveal_strlit("redstar");
        assert(decided_at("redos"@, "redstar"@, 3));
    } else if i == 283 {
        reveal_strlit("redstar");
        reveal_strlit("redstar-os");
        assert(decided_at("redstar"@, "redstar-os"@, 7));
    } else if i == 284 {
        reveal_strlit("redstar-os");
        reveal_strlit("redstaros");
        assert(decided_at("redstar-os"@, "redstaros"@, 7));
    } else if i == 285 {
        reveal_strlit("redstaros");
        reveal_strlit("refracta");
        assert(decided_at("redstaros"@, "refracta"@, 2));
    } else if i == 286 {
        reveal_strlit("refracta");
        reveal_strlit("refracted devuan");
        assert(decided_at("refracta"@, "refracted devuan"@, 7));
    } else {
        reveal_strlit("refracted devuan");
        reveal_strlit("refracted-devuan");
        assert(decided_at("refracted devuan"@, "refracted-devuan"@, 9));
    }
}

proof fn lemma_ascending_9(i: int)
    requires
        288 <= i < 320,
    ensures
        precedes(alias_entry(i).0, alias_entry(i + 1).0),
{
    if i == 288 {
        reveal_strlit("refracted-devuan");
        reveal_strlit("regata");
        assert(decided_at("refracted-devuan"@, "regata"@, 2));
    } else if i == 289 {
        reveal_strlit("regata");
        reveal_strlit("regolith");
        assert(decided_at("regata"@, "regolith"@, 3));
    } else if i == 290 {
        reveal_strlit("regolith");
        reveal_strlit("rhaymos");
        assert(decided_at("regolith"@, "rhaymos"@, 1));
    } else if i == 291 {
        reveal_strlit("rhaymos");
        reveal_strlit("rhel");
        assert(decided_at("rhaymos"@, "rhel"@, 2));
    } else if i == 292 {
        reveal_strlit("rhel");
        reveal_strlit("rocky");
        assert(decided_at("rhel"@, "rocky"@, 1));
    } else if i == 293 {
        reveal_strlit("rocky");
        reveal_strlit("rockylinux");
        assert(decided_at("rocky"@, "rockylinux"@, 5));
    } else if i == 294 {
        reveal_strlit("rockylinux");
        reveal_strlit("rosa");
        assert(decided_at("rockylinux"@, "rosa"@, 2));
    } else if i == 295 {
        reveal_strlit("rosa");
        reveal_strlit("sabayon");
        assert(decided_at("rosa"@, "sabayon"@, 0));
    } else if i == 296 {
        reveal_strlit("sabayon");
        reveal_strlit("sabotage");
        assert(decided_at("sabayon"@, "sabotage"@, 3));
    } else if i == 297 {
        reveal_strlit("sabotage");
        reveal_strlit("sailfishos");
        assert(decided_at("sabotage"@, "sailfishos"@, 2));
    } else if i == 298 {
        reveal_strlit("sailfishos");
        reveal_strlit("salentos");
        assert(decided_at("sailfishos"@, "salentos"@, 2));
    } else if i == 299 {
        reveal_strlit("salentos");
        reveal_strlit("salientos");
        assert(decided_at("salentos"@, "salientos"@, 3));
    } else if i == 300 {
        reveal_strlit("salientos");
        reveal_strlit("salix");
        assert(decided_at("salientos"@, "salix"@, 4));
    } else if i == 301 {
        reveal_strlit("salix");
        reveal_strlit("samberos");
        assert(decided_at("salix"@, "samberos"@, 2));
    } else if i == 302 {
        reveal_strlit("samberos");
        reveal_strlit("sasanqua");
        assert(decided_at("samberos"@, "sasanqua"@, 2));
    } else if i == 303 {
        reveal_strlit("sasanqua");
        reveal_strlit("scientific");
        assert(decided_at("sasanqua"@, "scientific"@, 1));
    } else if i == 304 {
        reveal_strlit("scientific");
        reveal_strlit("semc");
        assert(decided_at("scientific"@, "semc"@, 1));
    } else if i == 305 {
        reveal_strlit("semc");
        reveal_strlit("septor");
        assert(decided_at("semc"@, "septor"@, 2));
    } else if i == 306 {
        reveal_strlit("septor");
        reveal_strlit("serene");
        assert(decided_at("septor"@, "serene"@, 2));
    } else if i == 307 {
        reveal_strlit("serene");
        reveal_strlit("sharklinux");
        assert(decided_at("serene"@, "sharklinux"@, 1));
    } else if i == 308 {
        reveal_strlit("sharklinux");
        reveal_strlit("shastraos");
        assert(decided_at("sharklinux"@, "shastraos"@, 3));
    } else if i == 309 {
        reveal_strlit("shastraos");
        reveal_strlit("siduction");
        assert(decided_at("shastraos"@, "siduction"@, 1));
    } else if i == 310 {
        reveal_strlit("siduction");
        reveal_strlit("skiffos");
        assert(decided_at("siduction"@, "skiffos"@, 1));
    } else if i == 311 {
        reveal_strlit("skiffos");
        reveal_strlit("skinux");
        assert(decided_at("skiffos"@, "skinux"@, 3));
    } else if i == 312 {
        reveal_strlit("skinux");
        reveal_strlit("slackware");
        assert(decided_at("skinux"@, "slackware"@, 1));
    } else if i == 313 {
        reveal_strlit("slackware");
        reveal_strlit("slax");
        assert(decided_at("slackware"@, "slax"@, 3));
    } else if i == 314 {
        reveal_strlit("slax");
        reveal_strlit("slitaz");
        assert(decided_at("slax"@, "slitaz"@, 2));
    } else if i == 315 {
        reveal_strlit("slitaz");
        reveal_strlit("smartos");
        assert(decided_at("slitaz"@, "smartos"@, 1));
    } else if i == 316 {
        reveal_strlit("smartos");
        reveal_strlit("soda");
        assert(decided_at("smartos"@, "soda"@, 1));
    } else if i == 317 {
        reveal_strlit("soda");
        reveal_strlit("solaris");
        assert(decided_at("soda"@, "solaris"@, 2));
    } else if i == 318 {
        reveal_strlit("solaris");
        reveal_strlit("solus");
        assert(decided_at("solaris"@, "solus"@, 3));
    } else {
        reveal_strlit("solus");
        reveal_strlit("source-mage");
        assert(decided_at("solus"@, "source-mage"@, 2));
    }
}

proof fn lemma_ascending_10(i: int)
    requires
        320 <= i < 352,
    ensures
        precedes(alias_entry(i).0, alias_entry(i + 1).0),
{
    if i == 320 {
        reveal_strlit("source-mage");
        reveal_strlit("source_mage");
        assert(decided_at("source-mage"@, "source_mage"@, 6));
    } else if i == 321 {
        reveal_strlit("source_mage");
        reveal_strlit("sparky");
        assert(decided_at("source_mage"@, "sparky"@, 1));
    } else if i == 322 {
        reveal_strlit("sparky");
        reveal_strlit("springdale");
        assert(decided_at("sparky"@, "springdale"@, 2));
    } else if i == 323 {
        reveal_strlit("springdale");
        reveal_strlit("star");
        assert(decided_at("springdale"@, "star"@, 1));
    } else if i == 324 {
        reveal_strlit("star");
        reveal_strlit("steamos");
        assert(decided_at("star"@, "steamos"@, 2));
    } else if i == 325 {
        reveal_strlit("steamos");
        reveal_strlit("stock");
        assert(decided_at("steamos"@, "stock"@, 2));
    } else if i == 326 {
        reveal_strlit("stock");
        reveal_strlit("sulin");
        assert(decided_at("stock"@, "sulin"@, 1));
    } else if i == 327 {
        reveal_strlit("sulin");
        reveal_strlit("sunos");
        assert(decided_at("sulin"@, "sunos"@, 2));
    } else if i == 328 {
        reveal_strlit("sunos");
        reveal_strlit("suse");
        assert(decided_at("sunos"@, "suse"@, 2));
    } else if i == 329 {
        reveal_strlit("suse");
        reveal_strlit("swagarch");
        assert(decided_at("suse"@, "swagarch"@, 1));
    } else if i == 330 {
        reveal_strlit("swagarch");
        reveal_strlit("t2");
        assert(decided_at("swagarch"@, "t2"@, 0));
    } else if i == 331 {
        reveal_strlit("t2");
        reveal_strlit("tails");
        assert(decided_at("t2"@, "tails"@, 1));
    } else if i == 332 {
        reveal_strlit("tails");
        reveal_strlit("tatra");
        assert(decided_at("tails"@, "tatra"@, 2));
    } else if i == 333 {
        reveal_strlit("tatra");
        reveal_strlit("tearch");
        assert(decided_at("tatra"@, "tearch"@, 1));
    } else if i == 334 {
        reveal_strlit("tearch");
        reveal_strlit("terrame");
        assert(decided_at("tearch"@, "terrame"@, 2));
    } else if i == 335 {
        reveal_strlit("terrame");
        reveal_strlit("tinycore");
        assert(decided_at("terrame"@, "tinycore"@, 1));
    } else if i == 336 {
        reveal_strlit("tinycore");
        reveal_strlit("tokaos");
        assert(decided_at("tinycore"@, "tokaos"@, 1));
    } else if i == 337 {
        reveal_strlit("tokaos");
        reveal_strlit("torizoncore");
        assert(decided_at("tokaos"@, "torizoncore"@, 2));
    } else if i == 338 {
        reveal_strlit("torizoncore");
        reveal_strlit("trisquel");
        assert(decided_at("torizoncore"@, "trisquel"@, 1));
    } else if i == 339 {
        reveal_strlit("trisquel");
        reveal_strlit("tuxedoos");
        assert(decided_at("trisquel"@, "tuxedoos"@, 1));
    } else if i == 340 {
        reveal_strlit("tuxedoos");
        reveal_strlit("ubuntu");
        assert(decided_at("tuxedoos"@, "ubuntu"@, 0));
    } else if i == 341 {
        reveal_strlit("ubuntu");
        reveal_strlit("ubuntu-budgie");
        assert(decided_at("ubuntu"@, "ubuntu-budgie"@, 6));
    } else if i == 342 {
        reveal_strlit("ubuntu-budgie");
        reveal_strlit("ubuntu-cinnamon");
        assert(decided_at("ubuntu-budgie"@, "ubuntu-cinnamon"@, 7));
    } else if i == 343 {
        reveal_strlit("ubuntu-cinnamon");
        reveal_strlit("ubuntu-gnome");
        assert(decided_at("ubuntu-cinnamon"@, "ubuntu-gnome"@, 7));
    } else if i == 344 {
        reveal_strlit("ubuntu-gnome");
        reveal_strlit("ubuntu-kylin");
        assert(decided_at("ubuntu-gnome"@, "ubuntu-kylin"@, 7));
    } else if i == 345 {
        reveal_strlit("ubuntu-kylin");
        reveal_strlit("ubuntu-mate");
        assert(decided_at("ubuntu-kylin"@, "ubuntu-mate"@, 7));
    } else if i == 346 {
        reveal_strlit("ubuntu-mate");
        reveal_strlit("ubuntu-studio");
        assert(decided_at("ubuntu-mate"@, "ubuntu-studio"@, 7));
    } else if i == 347 {
        reveal_strlit("ubuntu-studio");
        reveal_strlit("ubuntu-sway");
        assert(decided_at("ubuntu-studio"@, "ubuntu-sway"@, 8));
    } else if i == 348 {
        reveal_strlit("ubuntu-sway");
        reveal_strlit("ubuntu-touch");
        assert(decided_at("ubuntu-sway"@, "ubuntu-touch"@, 7));
    } else if i == 349 {
        reveal_strlit("ubuntu-touch");
        reveal_strlit("ubuntu-unity");
        assert(decided_at("ubuntu-touch"@, "ubuntu-unity"@, 7));
    } else if i == 350 {
        reveal_strlit("ubuntu-unity");
        reveal_strlit("ubuntu_budgie");
        assert(decided_at("ubuntu-unity"@, "ubuntu_budgie"@, 6));
    } else {
        reveal_strlit("ubuntu_budgie");
        reveal_strlit("ubuntu_cinnamon");
        assert(decided_at("ubuntu_budgie"@, "ubuntu_cinnamon"@, 7));
    }
}

proof fn lemma_ascending_11(i: int)
    requires
        352 <= i < 384,
    ensures
        precedes(alias_entry(i).0, alias_entry(i + 1).0),
{
    if i == 352 {
        reveal_strlit("ubuntu_cinnamon");
        reveal_strlit("ubuntu_gnome");
        assert(decided_at("ubuntu_cinnamon"@, "ubuntu_gnome"@, 7));
    } else if i == 353 {
        reveal_strlit("ubuntu_gnome");
        reveal_strlit("ubuntu_kylin");
        assert(decided_at("ubuntu_gnome"@, "ubuntu_kylin"@, 7));
    } else if i == 354 {
        reveal_strlit("ubuntu_kylin");
        reveal_strlit("ubuntu_mate");
        assert(decided_at("ubuntu_kylin"@, "ubuntu_mate"@, 7));
    } else if i == 355 {
        reveal_strlit("ubuntu_mate");
        reveal_strlit("ubuntu_studio");
        assert(decided_at("ubuntu_mate"@, "ubuntu_studio"@, 7));
    } else if i == 356 {
        reveal_strlit("ubuntu_studio");
        reveal_strlit("ubuntu_sway");
        assert(decided_at("ubuntu_studio"@, "ubuntu_sway"@, 8));
    } else if i == 357 {
        reveal_strlit("ubuntu_sway");
        reveal_strlit("ubuntu_touch");
        assert(decided_at("ubuntu_sway"@, "ubuntu_touch"@, 7));
    } else if i == 358 {
        reveal_strlit("ubuntu_touch");
        reveal_strlit("ubuntu_unity");
        assert(decided_at("ubuntu_touch"@, "ubuntu_unity"@, 7));
    } else if i == 359 {
        reveal_strlit("ubuntu_unity");
        reveal_strlit("ultramarine");
        assert(decided_at("ubuntu_unity"@, "ultramarine"@, 1));
    } else if i == 360 {
        reveal_strlit("ultramarine");
        reveal_strlit("univalent");
        assert(decided_at("ultramarine"@, "univalent"@, 1));
    } else if i == 361 {
        reveal_strlit("univalent");
        reveal_strlit("univention");
        assert(decided_at("univalent"@, "univention"@, 4));
    } else if i == 362 {
        reveal_strlit("univention");
        reveal_strlit("uruk");
        assert(decided_at("univention"@, "uruk"@, 1));
    } else if i == 363 {
        reveal_strlit("uruk");
        reveal_strlit("uwuntu");
        assert(decided_at("uruk"@, "uwuntu"@, 1));
    } else if i == 364 {
        reveal_strlit("uwuntu");
        reveal_strlit("valhalla");
        assert(decided_at("uwuntu"@, "valhalla"@, 0));
    } else if i == 365 {
        reveal_strlit("valhalla");
        reveal_strlit("valhalla-linux");
        assert(decided_at("valhalla"@, "valhalla-linux"@, 8));
    } else if i == 366 {
        reveal_strlit("valhalla-linux");
        reveal_strlit("valhallaos");
        assert(decided_at("valhalla-linux"@, "valhallaos"@, 8));
    } else if i == 367 {
        reveal_strlit("valhallaos");
        reveal_strlit("vanilla");
        assert(decided_at("valhallaos"@, "vanilla"@, 2));
    } else if i == 368 {
        reveal_strlit("vanilla");
        reveal_strlit("vanilla-linux");
        assert(decided_at("vanilla"@, "vanilla-linux"@, 7));
    } else if i == 369 {
        reveal_strlit("vanilla-linux");
        reveal_strlit("vanilla-linux-small");
        assert(decided_at("vanilla-linux"@, "vanilla-linux-small"@, 13));
    } else if i == 370 {
        reveal_strlit("vanilla-linux-small");
        reveal_strlit("vanilla-linux2");
        assert(decided_at("vanilla-linux-small"@, "vanilla-linux2"@, 13));
    } else if i == 371 {
        reveal_strlit("vanilla-linux2");
        reveal_strlit("vanilla-os");
        assert(decided_at("vanilla-linux2"@, "vanilla-os"@, 8));
    } else if i == 372 {
        reveal_strlit("vanilla-os");
        reveal_strlit("vanilla-os-small");
        assert(decided_at("vanilla-os"@, "vanilla-os-small"@, 10));
    } else if i == 373 {
        reveal_strlit("vanilla-os-small");
        reveal_strlit("vanilla-os2");
        assert(decided_at("vanilla-os-small"@, "vanilla-os2"@, 10));
    } else if i == 374 {
        reveal_strlit("vanilla-os2");
        reveal_strlit("vanilla-small");
        assert(decided_at("vanilla-os2"@, "vanilla-small"@, 8));
    } else if i == 375 {
        reveal_strlit("vanilla-small");
        reveal_strlit("vanilla2");
        assert(decided_at("vanilla-small"@, "vanilla2"@, 7));
    } else if i == 376 {
        reveal_strlit("vanilla2");
        reveal_strlit("venom");
        assert(decided_at("vanilla2"@, "venom"@, 1));
    } else if i == 377 {
        reveal_strlit("venom");
        reveal_strlit("vnux");
        assert(decided_at("venom"@, "vnux"@, 1));
    } else if i == 378 {
        reveal_strlit("vnux");
        reveal_strlit("void");
        assert(decided_at("vnux"@, "void"@, 1));
    } else if i == 379 {
        reveal_strlit("void");
        reveal_strlit("void-linux");
        assert(decided_at("void"@, "void-linux"@, 4));
    } else if i == 380 {
        reveal_strlit("void-linux");
        reveal_strlit("vzlinux");
        assert(decided_at("void-linux"@, "vzlinux"@, 1));
    } else if i == 381 {
        reveal_strlit("vzlinux");
        reveal_strlit("wii-linux-ngx");
        assert(decided_at("vzlinux"@, "wii-linux-ngx"@, 0));
    } else if i == 382 {
        reveal_strlit("wii-linux-ngx");
        reveal_strlit("wiilinuxngx");
        assert(decided_at("wii-linux-ngx"@, "wiilinuxngx"@, 3));
    } else {
        reveal_strlit("wiilinuxngx");
        reveal_strlit("windows");
        assert(decided_at("wiilinuxngx"@, "windows"@, 2));
    }
}

proof fn lemma_ascending_12(i: int)
    requires
        384 <= i < 415,
    ensures
        precedes(alias_entry(i).0, alias_entry(i + 1).0),
{
    if i == 384 {
        reveal_strlit("windows");
        reveal_strlit("windows 10");
        assert(decided_at("windows"@, "windows 10"@, 7));
    } else if i == 385 {
        reveal_strlit("windows 10");
        reveal_strlit("windows 11");
        assert(decided_at("windows 10"@, "windows 11"@, 9));
    } else if i == 386 {
        reveal_strlit("windows 11");
        reveal_strlit("windows 11-small");
        assert(decided_at("windows 11"@, "windows 11-small"@, 10));
    } else if i == 387 {
        reveal_strlit("windows 11-small");
        reveal_strlit("windows 11_small");
        assert(decided_at("windows 11-small"@, "windows 11_small"@, 10));
    } else if i == 388 {
        reveal_strlit("windows 11_small");
        reveal_strlit("windows 7");
        assert(decided_at("windows 11_small"@, "windows 7"@, 8));
    } else if i == 389 {
        reveal_strlit("windows 7");
        reveal_strlit("windows 8");
        assert(decided_at("windows 7"@, "windows 8"@, 8));
    } else if i == 390 {
        reveal_strlit("windows 8");
        reveal_strlit("windows 8.1");
        assert(decided_at("windows 8"@, "windows 8.1"@, 9));
    } else if i == 391 {
        reveal_strlit("windows 8.1");
        reveal_strlit("windows 95");
        assert(decided_at("windows 8.1"@, "windows 95"@, 8));
    } else if i == 392 {
        reveal_strlit("windows 95");
        reveal_strlit("windows 9x");
        assert(decided_at("windows 95"@, "windows 9x"@, 9));
    } else if i == 393 {
        reveal_strlit("windows 9x");
        reveal_strlit("windows server 2008");
        assert(decided_at("windows 9x"@, "windows server 2008"@, 8));
    } else if i == 394 {
        reveal_strlit("windows server 2008");
        reveal_strlit("windows server 2008 r2");
        assert(decided_at("windows server 2008"@, "windows server 2008 r2"@, 19));
    } else if i == 395 {
        reveal_strlit("windows server 2008 r2");
        reveal_strlit("windows server 2012");
        assert(decided_at("windows server 2008 r2"@, "windows server 2012"@, 17));
    } else if i == 396 {
        reveal_strlit("windows server 2012");
        reveal_strlit("windows server 2012 r2");
        assert(decided_at("windows server 2012"@, "windows server 2012 r2"@, 19));
    } else if i == 397 {
        reveal_strlit("windows server 2012 r2");
        reveal_strlit("windows server 2016");
        assert(decided_at("windows server 2012 r2"@, "windows server 2016"@, 18));
    } else if i == 398 {
        reveal_strlit("windows server 2016");
        reveal_strlit("windows server 2019");
        assert(decided_at("windows server 2016"@, "windows server 2019"@, 18));
    } else if i == 399 {
        reveal_strlit("windows server 2019");
        reveal_strlit("windows server 2022");
        assert(decided_at("windows server 2019"@, "windows server 2022"@, 17));
    } else if i == 400 {
        reveal_strlit("windows server 2022");
        reveal_strlit("windows server 2025");
        assert(decided_at("windows server 2022"@, "windows server 2025"@, 18));
    } else if i == 401 {
        reveal_strlit("windows server 2025");
        reveal_strlit("xcp-ng");
        assert(decided_at("windows server 2025"@, "xcp-ng"@, 0));
    } else if i == 402 {
        reveal_strlit("xcp-ng");
        reveal_strlit("xenenterprise");
        assert(decided_at("xcp-ng"@, "xenenterprise"@, 1));
    } else if i == 403 {
        reveal_strlit("xenenterprise");
        reveal_strlit("xenia");
        assert(decided_at("xenenterprise"@, "xenia"@, 3));
    } else if i == 404 {
        reveal_strlit("xenia");
        reveal_strlit("xeroarch");
        assert(decided_at("xenia"@, "xeroarch"@, 2));
    } else if i == 405 {
        reveal_strlit("xeroarch");
        reveal_strlit("xferience");
        assert(decided_at("xeroarch"@, "xferience"@, 1));
    } else if i == 406 {
        reveal_strlit("xferience");
        reveal_strlit("xray_os");
        assert(decided_at("xferience"@, "xray_os"@, 1));
    } else if i == 407 {
        reveal_strlit("xray_os");
        reveal_strlit("xubuntu");
        assert(decided_at("xray_os"@, "xubuntu"@, 1));
    } else if i == 408 {
        reveal_strlit("xubuntu");
        reveal_strlit("yiffos");
        assert(decided_at("xubuntu"@, "yiffos"@, 0));
    } else if i == 409 {
        reveal_strlit("yiffos");
        reveal_strlit("z/os");
        assert(decided_at("yiffos"@, "z/os"@, 0));
    } else if i == 410 {
        reveal_strlit("z/os");
        reveal_strlit("zorin");
        assert(decided_at("z/os"@, "zorin"@, 1));
    } else if i == 411 {
        reveal_strlit("zorin");
        reveal_strlit("zorin-linux");
        assert(decided_at("zorin"@, "zorin-linux"@, 5));
    } else if i == 412 {
        reveal_strlit("zorin-linux");
        reveal_strlit("zorinos");
        assert(decided_at("zorin-linux"@, "zorinos"@, 5));
    } else if i == 413 {
        reveal_strlit("zorinos");
        reveal_strlit("zorinos-linux");
        assert(decided_at("zorinos"@, "zorinos-linux"@, 7));
    } else {
        reveal_strlit("zorinos-linux");
        reveal_strlit("zos");
        assert(decided_at("zorinos-linux"@, "zos"@, 2));
    }
}

proof fn lemma_group_size_0(g: int)
    requires
        0 <= g < 32,
    ensures
        1 <= group_colors(g).len() <= 7,
{
}

proof fn lemma_group_size_1(g: int)
    requires
        32 <= g < 64,
    ensures
        1 <= group_colors(g).len() <= 7,
{
}

proof fn lemma_group_size_2(g: int)
    requires
        64 <= g < 96,
    ensures
        1 <= group_colors(g).len() <= 7,
{
}

proof fn lemma_group_size_3(g: int)
    requires
        96 <= g < 128,
    ensures
        1 <= group_colors(g).len() <= 7,
{
}

proof fn lemma_group_size_4(g: int)
    requires
        128 <= g < 160,
    ensures
        1 <= group_colors(g).len() <= 7,
{
}

proof fn lemma_group_size_5(g: int)
    requires
        160 <= g < 192,
    ensures
        1 <= group_colors(g).len() <= 7,
{
}

proof fn lemma_group_size_6(g: int)
    requires
        192 <= g < 224,
    ensures
        1 <= group_colors(g).len() <= 7,
{
}

proof fn lemma_group_size_7(g: int)
    requires
        224 <= g < 256,
    ensures
        1 <= group_colors(g).len() <= 7,
{
}

proof fn lemma_group_size_8(g: int)
    requires
        256 <= g < 288,
    ensures
        1 <= group_colors(g).len() <= 7,
{
}

proof fn lemma_group_size_9(g: int)
    requires
        288 <= g < 301,
    ensures
        1 <= group_colors(g).len() <= 7,
{
}

/// Every group of the table has at least one colour and at most seven.
pub proof fn lemma_group_size(g: int)
    requires
        0 <= g < GROUP_COUNT,
    ensures
        1 <= group_colors(g).len() <= 7,
{
    if g < 32 {
        lemma_group_size_0(g);
    } else if g < 64 {
        lemma_group_size_1(g);
    } else if g < 96 {
        lemma_group_size_2(g);
    } else if g < 128 {
        lemma_group_size_3(g);
    } else if g < 160 {
        lemma_group_size_4(g);
    } else if g < 192 {
        lemma_group_size_5(g);
    } else if g < 224 {
        lemma_group_size_6(g);
    } else if g < 256 {
        lemma_group_size_7(g);
    } else if g < 288 {
        lemma_group_size_8(g);
    } else {
        lemma_group_size_9(g);
    }
}

proof fn lemma_group_in_range_0(i: int)
    requires
        0 <= i < 32,
    ensures
        0 <= alias_entry(i).1 < GROUP_COUNT,
{
}

proof fn lemma_group_in_range_1(i: int)
    requires
        32 <= i < 64,
    ensures
        0 <= alias_entry(i).1 < GROUP_COUNT,
{
}

proof fn lemma_group_in_range_2(i: int)
    requires
        64 <= i < 96,
    ensures
        0 <= alias_entry(i).1 < GROUP_COUNT,
{
}

proof fn lemma_group_in_range_3(i: int)
    requires
        96 <= i < 128,
    ensures
        0 <= alias_entry(i).1 < GROUP_COUNT,
{
}

proof fn lemma_group_in_range_4(i: int)
    requires
        128 <= i < 160,
    ensures
        0 <= alias_entry(i).1 < GROUP_COUNT,
{
}

proof fn lemma_group_in_range_5(i: int)
    requires
        160 <= i < 192,
    ensures
        0 <= alias_entry(i).1 < GROUP_COUNT,
{
}

proof fn lemma_group_in_range_6(i: int)
    requires
        192 <= i < 224,
    ensures
        0 <= alias_entry(i).1 < GROUP_COUNT,
{
}

proof fn lemma_group_in_range_7(i: int)
    requires
        224 <= i < 256,
    ensures
        0 <= alias_entry(i).1 < GROUP_COUNT,
{
}

proof fn lemma_group_in_range_8(i: int)
    requires
        256 <= i < 288,
    ensures
        0 <= alias_entry(i).1 < GROUP_COUNT,
{
}

proof fn lemma_group_in_range_9(i: int)
    requires
        288 <= i < 320,
    ensures
        0 <= alias_entry(i).1 < GROUP_COUNT,
{
}

proof fn lemma_group_in_range_10(i: int)
    requires
        320 <= i < 352,
    ensures
        0 <= alias_entry(i).1 < GROUP_COUNT,
{
}

proof fn lemma_group_in_range_11(i: int)
    requires
        352 <= i < 384,
    ensures
        0 <= alias_entry(i).1 < GROUP_COUNT,
{
}

proof fn lemma_group_in_range_12(i: int)
    requires
        384 <= i < 416,
    ensures
        0 <= alias_entry(i).1 < GROUP_COUNT,
{
}

/// Every name of the table belongs to one of the groups.
pub proof fn lemma_group_in_range(i: int)
    requires
        0 <= i < ALIAS_COUNT,
    ensures
        0 <= alias_entry(i).1 < GROUP_COUNT,
{
    if i < 32 {
        lemma_group_in_range_0(i);
    } else if i < 64 {
        lemma_group_in_range_1(i);
    } else if i < 96 {
        lemma_group_in_range_2(i);
    } else if i < 128 {
        lemma_group_in_range_3(i);
    } else if i < 160 {
        lemma_group_in_range_4(i);
    } else if i < 192 {
        lemma_group_in_range_5(i);
    } else if i < 224 {
        lemma_group_in_range_6(i);
    } else if i < 256 {
        lemma_group_in_range_7(i);
    } else if i < 288 {
        lemma_group_in_range_8(i);
    } else if i < 320 {
        lemma_group_in_range_9(i);
    } else if i < 352 {
        lemma_group_in_range_10(i);
    } else if i < 384 {
        lemma_group_in_range_11(i);
    } else {
        lemma_group_in_range_12(i);
    }
}

/// Each name of the table comes strictly before the next.
pub proof fn lemma_next_name_follows(i: int)
    requires
        0 <= i < ALIAS_COUNT - 1,
    ensures
        precedes(alias_entry(i).0, alias_entry(i + 1).0),
{
    if i < 32 {
        lemma_ascending_0(i);
    } else if i < 64 {
        lemma_ascending_1(i);
    } else if i < 96 {
        lemma_ascending_2(i);
    } else if i < 128 {
        lemma_ascending_3(i);
    } else if i < 160 {
        lemma_ascending_4(i);
    } else if i < 192 {
        lemma_ascending_5(i);
    } else if i < 224 {
        lemma_ascending_6(i);
    } else if i < 256 {
        lemma_ascending_7(i);
    } else if i < 288 {
        lemma_ascending_8(i);
    } else if i < 320 {
        lemma_ascending_9(i);
    } else if i < 352 {
        lemma_ascending_10(i);
    } else if i < 384 {
        lemma_ascending_11(i);
    } else {
        lemma_ascending_12(i);
    }
}

/// Each name of the table comes strictly before every name behind it.
pub proof fn lemma_names_ascend(i: int, j: int)
    requires
        0 <= i < j < ALIAS_COUNT,
    ensures
        precedes(alias_entry(i).0, alias_entry(j).0),
    decreases j - i,
{
    lemma_next_name_follows(j - 1);
    if i < j - 1 {
        lemma_names_ascend(i, j - 1);
        lemma_precedes_transitive(alias_entry(i).0, alias_entry(j - 1).0, alias_entry(j).0);
    }
}

/// No name stands in the table twice.
pub proof fn lemma_names_differ(i: int, j: int)
    requires
        0 <= i < ALIAS_COUNT,
        0 <= j < ALIAS_COUNT,
        i != j,
    ensures
        alias_entry(i).0 != alias_entry(j).0,
{
    if i < j {
        lemma_names_ascend(i, j);
        lemma_precedes_asymmetric(alias_entry(i).0, alias_entry(j).0);
    } else {
        lemma_names_ascend(j, i);
        lemma_precedes_asymmetric(alias_entry(j).0, alias_entry(i).0);
    }
}

} // verus!
