//! The table of known systems: every name under which a system is known,
//! in ascending order, with the group it belongs to, and the colours of each
//! group in the order of their placeholders.

use crate::color::Color;
use vstd::prelude::*;

verus! {

/// The number of names in the table.
pub const ALIAS_COUNT: usize = 416;

/// The number of groups in the table.
pub const GROUP_COUNT: usize = 301;

/// The names 0 to 31 with their groups.
pub open spec fn alias_block_0(i: int) -> (Seq<char>, int) {
    if i == 0 {
        ("adelie"@, 0)
    } else if i == 1 {
        ("ad\u{c3}\u{a9}lie"@, 0)
    } else if i == 2 {
        ("aeros"@, 1)
    } else if i == 3 {
        ("afterglow"@, 2)
    } else if i == 4 {
        ("aix"@, 3)
    } else if i == 5 {
        ("almalinux"@, 4)
    } else if i == 6 {
        ("alpine"@, 5)
    } else if i == 7 {
        ("alpine-linux"@, 5)
    } else if i == 8 {
        ("alpine-linux-small"@, 6)
    } else if i == 9 {
        ("alpine-linux2-small"@, 7)
    } else if i == 10 {
        ("alpine2_small"@, 7)
    } else if i == 11 {
        ("alpine_small"@, 6)
    } else if i == 12 {
        ("alpinelinux"@, 5)
    } else if i == 13 {
        ("alter"@, 8)
    } else if i == 14 {
        ("amazon"@, 9)
    } else if i == 15 {
        ("anarchy"@, 10)
    } else if i == 16 {
        ("android"@, 11)
    } else if i == 17 {
        ("antergos"@, 12)
    } else if i == 18 {
        ("antiX"@, 13)
    } else if i == 19 {
        ("antix"@, 13)
    } else if i == 20 {
        ("aosc"@, 14)
    } else if i == 21 {
        ("aosc-os"@, 14)
    } else if i == 22 {
        ("aosc_os"@, 14)
    } else if i == 23 {
        ("aperture"@, 15)
    } else if i == 24 {
        ("apricity"@, 16)
    } else if i == 25 {
        ("arch"@, 18)
    } else if i == 26 {
        ("arch-linux"@, 18)
    } else if i == 27 {
        ("archcraft"@, 17)
    } else if i == 28 {
        ("archlinux"@, 18)
    } else if i == 29 {
        ("archmerge"@, 19)
    } else if i == 30 {
        ("arcolinux"@, 20)
    } else {
        ("arkane"@, 21)
    }
}

fn alias_block_at_0(i: usize) -> (entry: (&'static str, usize))
    requires
        0 <= i < 32,
    ensures
        entry.0@ == alias_block_0(i as int).0,
        entry.1 == alias_block_0(i as int).1,
        entry.1 < GROUP_COUNT,
{
    if i == 0 {
        ("adelie", 0)
    } else if i == 1 {
        ("ad\u{c3}\u{a9}lie", 0)
    } else if i == 2 {
        ("aeros", 1)
    } else if i == 3 {
        ("afterglow", 2)
    } else if i == 4 {
        ("aix", 3)
    } else if i == 5 {
        ("almalinux", 4)
    } else if i == 6 {
        ("alpine", 5)
    } else if i == 7 {
        ("alpine-linux", 5)
    } else if i == 8 {
        ("alpine-linux-small", 6)
    } else if i == 9 {
        ("alpine-linux2-small", 7)
    } else if i == 10 {
        ("alpine2_small", 7)
    } else if i == 11 {
        ("alpine_small", 6)
    } else if i == 12 {
        ("alpinelinux", 5)
    } else if i == 13 {
        ("alter", 8)
    } else if i == 14 {
        ("amazon", 9)
    } else if i == 15 {
        ("anarchy", 10)
    } else if i == 16 {
        ("android", 11)
    } else if i == 17 {
        ("antergos", 12)
    } else if i == 18 {
        ("antiX", 13)
    } else if i == 19 {
        ("antix", 13)
    } else if i == 20 {
        ("aosc", 14)
    } else if i == 21 {
        ("aosc-os", 14)
    } else if i == 22 {
        ("aosc_os", 14)
    } else if i == 23 {
        ("aperture", 15)
    } else if i == 24 {
        ("apricity", 16)
    } else if i == 25 {
        ("arch", 18)
    } else if i == 26 {
        ("arch-linux", 18)
    } else if i == 27 {
        ("archcraft", 17)
    } else if i == 28 {
        ("archlinux", 18)
    } else if i == 29 {
        ("archmerge", 19)
    } else if i == 30 {
        ("arcolinux", 20)
    } else {
        ("arkane", 21)
    }
}

/// The names 32 to 63 with their groups.
pub open spec fn alias_block_1(i: int) -> (Seq<char>, int) {
    if i == 32 {
        ("arkanelinux"@, 21)
    } else if i == 33 {
        ("armbian"@, 22)
    } else if i == 34 {
        ("artix"@, 23)
    } else if i == 35 {
        ("artixlinux"@, 23)
    } else if i == 36 {
        ("arya"@, 24)
    } else if i == 37 {
        ("astOS"@, 27)
    } else if i == 38 {
        ("aster"@, 25)
    } else if i == 39 {
        ("asteroidos"@, 26)
    } else if i == 40 {
        ("astos"@, 27)
    } else if i == 41 {
        ("astra"@, 28)
    } else if i == 42 {
        ("astra linux"@, 28)
    } else if i == 43 {
        ("astra_linux"@, 28)
    } else if i == 44 {
        ("athena"@, 29)
    } else if i == 45 {
        ("athenaOS"@, 29)
    } else if i == 46 {
        ("athenaos"@, 29)
    } else if i == 47 {
        ("azos"@, 30)
    } else if i == 48 {
        ("backarcher"@, 31)
    } else if i == 49 {
        ("bedrock"@, 32)
    } else if i == 50 {
        ("biglinux"@, 33)
    } else if i == 51 {
        ("bitrig"@, 34)
    } else if i == 52 {
        ("black-mesa"@, 36)
    } else if i == 53 {
        ("blackarch"@, 35)
    } else if i == 54 {
        ("blackmesa"@, 36)
    } else if i == 55 {
        ("blackpanther"@, 37)
    } else if i == 56 {
        ("blag"@, 38)
    } else if i == 57 {
        ("blankon"@, 39)
    } else if i == 58 {
        ("bluelight"@, 40)
    } else if i == 59 {
        ("bodhi"@, 41)
    } else if i == 60 {
        ("bonsai"@, 42)
    } else if i == 61 {
        ("bsd"@, 43)
    } else if i == 62 {
        ("bunsenlabs"@, 44)
    } else {
        ("cachyos"@, 45)
    }
}

fn alias_block_at_1(i: usize) -> (entry: (&'static str, usize))
    requires
        32 <= i < 64,
    ensures
        entry.0@ == alias_block_1(i as int).0,
        entry.1 == alias_block_1(i as int).1,
        entry.1 < GROUP_COUNT,
{
    if i == 32 {
        ("arkanelinux", 21)
    } else if i == 33 {
        ("armbian", 22)
    } else if i == 34 {
        ("artix", 23)
    } else if i == 35 {
        ("artixlinux", 23)
    } else if i == 36 {
        ("arya", 24)
    } else if i == 37 {
        ("astOS", 27)
    } else if i == 38 {
        ("aster", 25)
    } else if i == 39 {
        ("asteroidos", 26)
    } else if i == 40 {
        ("astos", 27)
    } else if i == 41 {
        ("astra", 28)
    } else if i == 42 {
        ("astra linux", 28)
    } else if i == 43 {
        ("astra_linux", 28)
    } else if i == 44 {
        ("athena", 29)
    } else if i == 45 {
        ("athenaOS", 29)
    } else if i == 46 {
        ("athenaos", 29)
    } else if i == 47 {
        ("azos", 30)
    } else if i == 48 {
        ("backarcher", 31)
    } else if i == 49 {
        ("bedrock", 32)
    } else if i == 50 {
        ("biglinux", 33)
    } else if i == 51 {
        ("bitrig", 34)
    } else if i == 52 {
        ("black-mesa", 36)
    } else if i == 53 {
        ("blackarch", 35)
    } else if i == 54 {
        ("blackmesa", 36)
    } else if i == 55 {
        ("blackpanther", 37)
    } else if i == 56 {
        ("blag", 38)
    } else if i == 57 {
        ("blankon", 39)
    } else if i == 58 {
        ("bluelight", 40)
    } else if i == 59 {
        ("bodhi", 41)
    } else if i == 60 {
        ("bonsai", 42)
    } else if i == 61 {
        ("bsd", 43)
    } else if i == 62 {
        ("bunsenlabs", 44)
    } else {
        ("cachyos", 45)
    }
}

/// The names 64 to 95 with their groups.
pub open spec fn alias_block_2(i: int) -> (Seq<char>, int) {
    if i == 64 {
        ("calculate"@, 46)
    } else if i == 65 {
        ("calculatelinux"@, 46)
    } else if i == 66 {
        ("calinixos"@, 47)
    } else if i == 67 {
        ("carbs"@, 48)
    } else if i == 68 {
        ("cbpp"@, 49)
    } else if i == 69 {
        ("centos"@, 50)
    } else if i == 70 {
        ("cereus"@, 51)
    } else if i == 71 {
        ("cereus linux"@, 51)
    } else if i == 72 {
        ("chakra"@, 52)
    } else if i == 73 {
        ("chaletos"@, 53)
    } else if i == 74 {
        ("chapeau"@, 54)
    } else if i == 75 {
        ("chimera linux"@, 55)
    } else if i == 76 {
        ("chonkysealos"@, 56)
    } else if i == 77 {
        ("cleanjaro"@, 58)
    } else if i == 78 {
        ("clear-linux-os"@, 57)
    } else if i == 79 {
        ("clear_linux"@, 57)
    } else if i == 80 {
        ("clearos"@, 59)
    } else if i == 81 {
        ("clover"@, 60)
    } else if i == 82 {
        ("cobalt"@, 61)
    } else if i == 83 {
        ("condres"@, 62)
    } else if i == 84 {
        ("container_linux"@, 63)
    } else if i == 85 {
        ("coreos"@, 63)
    } else if i == 86 {
        ("crunchbangplusplus"@, 49)
    } else if i == 87 {
        ("crystal"@, 64)
    } else if i == 88 {
        ("crystal linux"@, 64)
    } else if i == 89 {
        ("dahlia"@, 65)
    } else if i == 90 {
        ("debian"@, 66)
    } else if i == 91 {
        ("deepin"@, 67)
    } else if i == 92 {
        ("desaos"@, 68)
    } else if i == 93 {
        ("devuan"@, 69)
    } else if i == 94 {
        ("dietpi"@, 70)
    } else {
        ("dragonfly"@, 71)
    }
}

fn alias_block_at_2(i: usize) -> (entry: (&'static str, usize))
    requires
        64 <= i < 96,
    ensures
        entry.0@ == alias_block_2(i as int).0,
        entry.1 == alias_block_2(i as int).1,
        entry.1 < GROUP_COUNT,
{
    if i == 64 {
        ("calculate", 46)
    } else if i == 65 {
        ("calculatelinux", 46)
    } else if i == 66 {
        ("calinixos", 47)
    } else if i == 67 {
        ("carbs", 48)
    } else if i == 68 {
        ("cbpp", 49)
    } else if i == 69 {
        ("centos", 50)
    } else if i == 70 {
        ("cereus", 51)
    } else if i == 71 {
        ("cereus linux", 51)
    } else if i == 72 {
        ("chakra", 52)
    } else if i == 73 {
        ("chaletos", 53)
    } else if i == 74 {
        ("chapeau", 54)
    } else if i == 75 {
        ("chimera linux", 55)
    } else if i == 76 {
        ("chonkysealos", 56)
    } else if i == 77 {
        ("cleanjaro", 58)
    } else if i == 78 {
        ("clear-linux-os", 57)
    } else if i == 79 {
        ("clear_linux", 57)
    } else if i == 80 {
        ("clearos", 59)
    } else if i == 81 {
        ("clover", 60)
    } else if i == 82 {
        ("cobalt", 61)
    } else if i == 83 {
        ("condres", 62)
    } else if i == 84 {
        ("container_linux", 63)
    } else if i == 85 {
        ("coreos", 63)
    } else if i == 86 {
        ("crunchbangplusplus", 49)
    } else if i == 87 {
        ("crystal", 64)
    } else if i == 88 {
        ("crystal linux", 64)
    } else if i == 89 {
        ("dahlia", 65)
    } else if i == 90 {
        ("debian", 66)
    } else if i == 91 {
        ("deepin", 67)
    } else if i == 92 {
        ("desaos", 68)
    } else if i == 93 {
        ("devuan", 69)
    } else if i == 94 {
        ("dietpi", 70)
    } else {
        ("dragonfly", 71)
    }
}

/// The names 96 to 127 with their groups.
pub open spec fn alias_block_3(i: int) -> (Seq<char>, int) {
    if i == 96 {
        ("dragonflybsd"@, 71)
    } else if i == 97 {
        ("drauger"@, 72)
    } else if i == 98 {
        ("droidian"@, 73)
    } else if i == 99 {
        ("elementary"@, 74)
    } else if i == 100 {
        ("elementaryos"@, 74)
    } else if i == 101 {
        ("elive"@, 75)
    } else if i == 102 {
        ("endeavour"@, 76)
    } else if i == 103 {
        ("endeavouros"@, 76)
    } else if i == 104 {
        ("endless"@, 77)
    } else if i == 105 {
        ("enso"@, 78)
    } else if i == 106 {
        ("eshanizedos"@, 79)
    } else if i == 107 {
        ("eurolinux"@, 80)
    } else if i == 108 {
        ("exherbo"@, 81)
    } else if i == 109 {
        ("fedora"@, 82)
    } else if i == 110 {
        ("femboyos"@, 83)
    } else if i == 111 {
        ("feren"@, 84)
    } else if i == 112 {
        ("finnix"@, 85)
    } else if i == 113 {
        ("freebsd"@, 86)
    } else if i == 114 {
        ("freemint"@, 87)
    } else if i == 115 {
        ("frugalware"@, 88)
    } else if i == 116 {
        ("funtoo"@, 89)
    } else if i == 117 {
        ("furretos"@, 90)
    } else if i == 118 {
        ("galliumos"@, 91)
    } else if i == 119 {
        ("garuda"@, 92)
    } else if i == 120 {
        ("gentoo"@, 93)
    } else if i == 121 {
        ("gnewsense"@, 95)
    } else if i == 122 {
        ("gnome"@, 94)
    } else if i == 123 {
        ("gnu"@, 96)
    } else if i == 124 {
        ("gobolinux"@, 97)
    } else if i == 125 {
        ("grapheneos"@, 98)
    } else if i == 126 {
        ("grombyang"@, 99)
    } else {
        ("guix"@, 100)
    }
}

fn alias_block_at_3(i: usize) -> (entry: (&'static str, usize))
    requires
        96 <= i < 128,
    ensures
        entry.0@ == alias_block_3(i as int).0,
        entry.1 == alias_block_3(i as int).1,
        entry.1 < GROUP_COUNT,
{
    if i == 96 {
        ("dragonflybsd", 71)
    } else if i == 97 {
        ("drauger", 72)
    } else if i == 98 {
        ("droidian", 73)
    } else if i == 99 {
        ("elementary", 74)
    } else if i == 100 {
        ("elementaryos", 74)
    } else if i == 101 {
        ("elive", 75)
    } else if i == 102 {
        ("endeavour", 76)
    } else if i == 103 {
        ("endeavouros", 76)
    } else if i == 104 {
        ("endless", 77)
    } else if i == 105 {
        ("enso", 78)
    } else if i == 106 {
        ("eshanizedos", 79)
    } else if i == 107 {
        ("eurolinux", 80)
    } else if i == 108 {
        ("exherbo", 81)
    } else if i == 109 {
        ("fedora", 82)
    } else if i == 110 {
        ("femboyos", 83)
    } else if i == 111 {
        ("feren", 84)
    } else if i == 112 {
        ("finnix", 85)
    } else if i == 113 {
        ("freebsd", 86)
    } else if i == 114 {
        ("freemint", 87)
    } else if i == 115 {
        ("frugalware", 88)
    } else if i == 116 {
        ("funtoo", 89)
    } else if i == 117 {
        ("furretos", 90)
    } else if i == 118 {
        ("galliumos", 91)
    } else if i == 119 {
        ("garuda", 92)
    } else if i == 120 {
        ("gentoo", 93)
    } else if i == 121 {
        ("gnewsense", 95)
    } else if i == 122 {
        ("gnome", 94)
    } else if i == 123 {
        ("gnu", 96)
    } else if i == 124 {
        ("gobolinux", 97)
    } else if i == 125 {
        ("grapheneos", 98)
    } else if i == 126 {
        ("grombyang", 99)
    } else {
        ("guix", 100)
    }
}

/// The names 128 to 159 with their groups.
pub open spec fn alias_block_4(i: int) -> (Seq<char>, int) {
    if i == 128 {
        ("haiku"@, 101)
    } else if i == 129 {
        ("hamara"@, 102)
    } else if i == 130 {
        ("hardenedbsd"@, 103)
    } else if i == 131 {
        ("hash"@, 104)
    } else if i == 132 {
        ("huayra"@, 105)
    } else if i == 133 {
        ("hydroOS"@, 106)
    } else if i == 134 {
        ("hydroos"@, 106)
    } else if i == 135 {
        ("hyperbola"@, 107)
    } else if i == 136 {
        ("iglunix"@, 108)
    } else if i == 137 {
        ("instantos"@, 109)
    } else if i == 138 {
        ("interix"@, 110)
    } else if i == 139 {
        ("irix"@, 111)
    } else if i == 140 {
        ("januslinux"@, 112)
    } else if i == 141 {
        ("kaisen"@, 113)
    } else if i == 142 {
        ("kali"@, 114)
    } else if i == 143 {
        ("kaos"@, 115)
    } else if i == 144 {
        ("kde"@, 116)
    } else if i == 145 {
        ("kde-neon"@, 116)
    } else if i == 146 {
        ("kde_neon"@, 116)
    } else if i == 147 {
        ("kdeneon"@, 121)
    } else if i == 148 {
        ("kibojoe"@, 117)
    } else if i == 149 {
        ("kiss"@, 118)
    } else if i == 150 {
        ("kogaion"@, 119)
    } else if i == 151 {
        ("korora"@, 120)
    } else if i == 152 {
        ("kubuntu"@, 122)
    } else if i == 153 {
        ("laxeros"@, 123)
    } else if i == 154 {
        ("lede"@, 124)
    } else if i == 155 {
        ("libreelec"@, 125)
    } else if i == 156 {
        ("lingmo"@, 126)
    } else if i == 157 {
        ("lingmo os"@, 126)
    } else if i == 158 {
        ("lingmo_os"@, 126)
    } else {
        ("linux"@, 127)
    }
}

fn alias_block_at_4(i: usize) -> (entry: (&'static str, usize))
    requires
        128 <= i < 160,
    ensures
        entry.0@ == alias_block_4(i as int).0,
        entry.1 == alias_block_4(i as int).1,
        entry.1 < GROUP_COUNT,
{
    if i == 128 {
        ("haiku", 101)
    } else if i == 129 {
        ("hamara", 102)
    } else if i == 130 {
        ("hardenedbsd", 103)
    } else if i == 131 {
        ("hash", 104)
    } else if i == 132 {
        ("huayra", 105)
    } else if i == 133 {
        ("hydroOS", 106)
    } else if i == 134 {
        ("hydroos", 106)
    } else if i == 135 {
        ("hyperbola", 107)
    } else if i == 136 {
        ("iglunix", 108)
    } else if i == 137 {
        ("instantos", 109)
    } else if i == 138 {
        ("interix", 110)
    } else if i == 139 {
        ("irix", 111)
    } else if i == 140 {
        ("januslinux", 112)
    } else if i == 141 {
        ("kaisen", 113)
    } else if i == 142 {
        ("kali", 114)
    } else if i == 143 {
        ("kaos", 115)
    } else if i == 144 {
        ("kde", 116)
    } else if i == 145 {
        ("kde-neon", 116)
    } else if i == 146 {
        ("kde_neon", 116)
    } else if i == 147 {
        ("kdeneon", 121)
    } else if i == 148 {
        ("kibojoe", 117)
    } else if i == 149 {
        ("kiss", 118)
    } else if i == 150 {
        ("kogaion", 119)
    } else if i == 151 {
        ("korora", 120)
    } else if i == 152 {
        ("kubuntu", 122)
    } else if i == 153 {
        ("laxeros", 123)
    } else if i == 154 {
        ("lede", 124)
    } else if i == 155 {
        ("libreelec", 125)
    } else if i == 156 {
        ("lingmo", 126)
    } else if i == 157 {
        ("lingmo os", 126)
    } else if i == 158 {
        ("lingmo_os", 126)
    } else {
        ("linux", 127)
    }
}

/// The names 160 to 191 with their groups.
pub open spec fn alias_block_5(i: int) -> (Seq<char>, int) {
    if i == 160 {
        ("linux mint"@, 129)
    } else if i == 161 {
        ("linux-lite"@, 128)
    } else if i == 162 {
        ("linux_lite"@, 128)
    } else if i == 163 {
        ("linuxlite"@, 128)
    } else if i == 164 {
        ("linuxmint"@, 129)
    } else if i == 165 {
        ("lmde"@, 130)
    } else if i == 166 {
        ("lubuntu"@, 131)
    } else if i == 167 {
        ("mageia"@, 132)
    } else if i == 168 {
        ("magpieos"@, 133)
    } else if i == 169 {
        ("mainsailos"@, 134)
    } else if i == 170 {
        ("manjaro"@, 135)
    } else if i == 171 {
        ("massos"@, 136)
    } else if i == 172 {
        ("maui"@, 137)
    } else if i == 173 {
        ("meowix"@, 138)
    } else if i == 174 {
        ("mer"@, 139)
    } else if i == 175 {
        ("minios"@, 140)
    } else if i == 176 {
        ("mint"@, 129)
    } else if i == 177 {
        ("mint_old"@, 141)
    } else if i == 178 {
        ("miraclelinux"@, 142)
    } else if i == 179 {
        ("moeOS"@, 143)
    } else if i == 180 {
        ("moeos"@, 143)
    } else if i == 181 {
        ("monjaro"@, 144)
    } else if i == 182 {
        ("morphos"@, 145)
    } else if i == 183 {
        ("mx"@, 146)
    } else if i == 184 {
        ("mx-linux"@, 146)
    } else if i == 185 {
        ("mxlinux"@, 146)
    } else if i == 186 {
        ("namib"@, 147)
    } else if i == 187 {
        ("neon"@, 148)
    } else if i == 188 {
        ("neptune"@, 149)
    } else if i == 189 {
        ("netbsd"@, 150)
    } else if i == 190 {
        ("netrunner"@, 151)
    } else {
        ("nitrux"@, 152)
    }
}

fn alias_block_at_5(i: usize) -> (entry: (&'static str, usize))
    requires
        160 <= i < 192,
    ensures
        entry.0@ == alias_block_5(i as int).0,
        entry.1 == alias_block_5(i as int).1,
        entry.1 < GROUP_COUNT,
{
    if i == 160 {
        ("linux mint", 129)
    } else if i == 161 {
        ("linux-lite", 128)
    } else if i == 162 {
        ("linux_lite", 128)
    } else if i == 163 {
        ("linuxlite", 128)
    } else if i == 164 {
        ("linuxmint", 129)
    } else if i == 165 {
        ("lmde", 130)
    } else if i == 166 {
        ("lubuntu", 131)
    } else if i == 167 {
        ("mageia", 132)
    } else if i == 168 {
        ("magpieos", 133)
    } else if i == 169 {
        ("mainsailos", 134)
    } else if i == 170 {
        ("manjaro", 135)
    } else if i == 171 {
        ("massos", 136)
    } else if i == 172 {
        ("maui", 137)
    } else if i == 173 {
        ("meowix", 138)
    } else if i == 174 {
        ("mer", 139)
    } else if i == 175 {
        ("minios", 140)
    } else if i == 176 {
        ("mint", 129)
    } else if i == 177 {
        ("mint_old", 141)
    } else if i == 178 {
        ("miraclelinux", 142)
    } else if i == 179 {
        ("moeOS", 143)
    } else if i == 180 {
        ("moeos", 143)
    } else if i == 181 {
        ("monjaro", 144)
    } else if i == 182 {
        ("morphos", 145)
    } else if i == 183 {
        ("mx", 146)
    } else if i == 184 {
        ("mx-linux", 146)
    } else if i == 185 {
        ("mxlinux", 146)
    } else if i == 186 {
        ("namib", 147)
    } else if i == 187 {
        ("neon", 148)
    } else if i == 188 {
        ("neptune", 149)
    } else if i == 189 {
        ("netbsd", 150)
    } else if i == 190 {
        ("netrunner", 151)
    } else {
        ("nitrux", 152)
    }
}

/// The names 192 to 223 with their groups.
pub open spec fn alias_block_6(i: int) -> (Seq<char>, int) {
    if i == 192 {
        ("nixos"@, 153)
    } else if i == 193 {
        ("nurunner"@, 154)
    } else if i == 194 {
        ("nutyx"@, 155)
    } else if i == 195 {
        ("nyaarch"@, 156)
    } else if i == 196 {
        ("obarun"@, 157)
    } else if i == 197 {
        ("obrevenge"@, 158)
    } else if i == 198 {
        ("omarine"@, 159)
    } else if i == 199 {
        ("omnios"@, 160)
    } else if i == 200 {
        ("open source media center"@, 177)
    } else if i == 201 {
        ("open-mandriva"@, 171)
    } else if i == 202 {
        ("open-suse"@, 164)
    } else if i == 203 {
        ("open_mandriva"@, 171)
    } else if i == 204 {
        ("open_suse"@, 164)
    } else if i == 205 {
        ("openbsd"@, 161)
    } else if i == 206 {
        ("openeuler"@, 162)
    } else if i == 207 {
        ("openindiana"@, 163)
    } else if i == 208 {
        ("openmandriva"@, 171)
    } else if i == 209 {
        ("openmandriva lx"@, 171)
    } else if i == 210 {
        ("opensuse"@, 164)
    } else if i == 211 {
        ("opensuse leap"@, 166)
    } else if i == 212 {
        ("opensuse leap_old"@, 167)
    } else if i == 213 {
        ("opensuse-microos"@, 165)
    } else if i == 214 {
        ("opensuse-slowroll"@, 170)
    } else if i == 215 {
        ("opensuse-tumbleweed"@, 168)
    } else if i == 216 {
        ("opensuse-tumbleweed-old"@, 169)
    } else if i == 217 {
        ("opensuse-tumbleweed-slowroll"@, 170)
    } else if i == 218 {
        ("opensuse_leap"@, 166)
    } else if i == 219 {
        ("opensuse_leap_old"@, 167)
    } else if i == 220 {
        ("opensuse_microos"@, 165)
    } else if i == 221 {
        ("opensuse_slowroll"@, 170)
    } else if i == 222 {
        ("opensuse_tumbleweed"@, 168)
    } else {
        ("opensuse_tumbleweed-old"@, 169)
    }
}

fn alias_block_at_6(i: usize) -> (entry: (&'static str, usize))
    requires
        192 <= i < 224,
    ensures
        entry.0@ == alias_block_6(i as int).0,
        entry.1 == alias_block_6(i as int).1,
        entry.1 < GROUP_COUNT,
{
    if i == 192 {
        ("nixos", 153)
    } else if i == 193 {
        ("nurunner", 154)
    } else if i == 194 {
        ("nutyx", 155)
    } else if i == 195 {
        ("nyaarch", 156)
    } else if i == 196 {
        ("obarun", 157)
    } else if i == 197 {
        ("obrevenge", 158)
    } else if i == 198 {
        ("omarine", 159)
    } else if i == 199 {
        ("omnios", 160)
    } else if i == 200 {
        ("open source media center", 177)
    } else if i == 201 {
        ("open-mandriva", 171)
    } else if i == 202 {
        ("open-suse", 164)
    } else if i == 203 {
        ("open_mandriva", 171)
    } else if i == 204 {
        ("open_suse", 164)
    } else if i == 205 {
        ("openbsd", 161)
    } else if i == 206 {
        ("openeuler", 162)
    } else if i == 207 {
        ("openindiana", 163)
    } else if i == 208 {
        ("openmandriva", 171)
    } else if i == 209 {
        ("openmandriva lx", 171)
    } else if i == 210 {
        ("opensuse", 164)
    } else if i == 211 {
        ("opensuse leap", 166)
    } else if i == 212 {
        ("opensuse leap_old", 167)
    } else if i == 213 {
        ("opensuse-microos", 165)
    } else if i == 214 {
        ("opensuse-slowroll", 170)
    } else if i == 215 {
        ("opensuse-tumbleweed", 168)
    } else if i == 216 {
        ("opensuse-tumbleweed-old", 169)
    } else if i == 217 {
        ("opensuse-tumbleweed-slowroll", 170)
    } else if i == 218 {
        ("opensuse_leap", 166)
    } else if i == 219 {
        ("opensuse_leap_old", 167)
    } else if i == 220 {
        ("opensuse_microos", 165)
    } else if i == 221 {
        ("opensuse_slowroll", 170)
    } else if i == 222 {
        ("opensuse_tumbleweed", 168)
    } else {
        ("opensuse_tumbleweed-old", 169)
    }
}

/// The names 224 to 255 with their groups.
pub open spec fn alias_block_7(i: int) -> (Seq<char>, int) {
    if i == 224 {
        ("openwrt"@, 172)
    } else if i == 225 {
        ("opnsense"@, 173)
    } else if i == 226 {
        ("oracle"@, 174)
    } else if i == 227 {
        ("oracle linux"@, 174)
    } else if i == 228 {
        ("oracle linux server"@, 174)
    } else if i == 229 {
        ("oraclelinux"@, 174)
    } else if i == 230 {
        ("orchid"@, 175)
    } else if i == 231 {
        ("os elbrus"@, 176)
    } else if i == 232 {
        ("os_elbrus"@, 176)
    } else if i == 233 {
        ("osmc"@, 177)
    } else if i == 234 {
        ("osx"@, 178)
    } else if i == 235 {
        ("pacbsd"@, 179)
    } else if i == 236 {
        ("panwah"@, 180)
    } else if i == 237 {
        ("parabola"@, 181)
    } else if i == 238 {
        ("pardus"@, 182)
    } else if i == 239 {
        ("parrot"@, 183)
    } else if i == 240 {
        ("parsix"@, 184)
    } else if i == 241 {
        ("pear"@, 185)
    } else if i == 242 {
        ("pearos"@, 185)
    } else if i == 243 {
        ("pengwin"@, 186)
    } else if i == 244 {
        ("pentoo"@, 187)
    } else if i == 245 {
        ("peppermint"@, 188)
    } else if i == 246 {
        ("peropesis"@, 189)
    } else if i == 247 {
        ("peropesis linux"@, 189)
    } else if i == 248 {
        ("phyos"@, 190)
    } else if i == 249 {
        ("pika"@, 191)
    } else if i == 250 {
        ("pikaos"@, 191)
    } else if i == 251 {
        ("pisi"@, 192)
    } else if i == 252 {
        ("pnm"@, 193)
    } else if i == 253 {
        ("pnm linux"@, 193)
    } else if i == 254 {
        ("pop"@, 194)
    } else {
        ("pop!_os"@, 194)
    }
}

fn alias_block_at_7(i: usize) -> (entry: (&'static str, usize))
    requires
        224 <= i < 256,
    ensures
        entry.0@ == alias_block_7(i as int).0,
        entry.1 == alias_block_7(i as int).1,
        entry.1 < GROUP_COUNT,
{
    if i == 224 {
        ("openwrt", 172)
    } else if i == 225 {
        ("opnsense", 173)
    } else if i == 226 {
        ("oracle", 174)
    } else if i == 227 {
        ("oracle linux", 174)
    } else if i == 228 {
        ("oracle linux server", 174)
    } else if i == 229 {
        ("oraclelinux", 174)
    } else if i == 230 {
        ("orchid", 175)
    } else if i == 231 {
        ("os elbrus", 176)
    } else if i == 232 {
        ("os_elbrus", 176)
    } else if i == 233 {
        ("osmc", 177)
    } else if i == 234 {
        ("osx", 178)
    } else if i == 235 {
        ("pacbsd", 179)
    } else if i == 236 {
        ("panwah", 180)
    } else if i == 237 {
        ("parabola", 181)
    } else if i == 238 {
        ("pardus", 182)
    } else if i == 239 {
        ("parrot", 183)
    } else if i == 240 {
        ("parsix", 184)
    } else if i == 241 {
        ("pear", 185)
    } else if i == 242 {
        ("pearos", 185)
    } else if i == 243 {
        ("pengwin", 186)
    } else if i == 244 {
        ("pentoo", 187)
    } else if i == 245 {
        ("peppermint", 188)
    } else if i == 246 {
        ("peropesis", 189)
    } else if i == 247 {
        ("peropesis linux", 189)
    } else if i == 248 {
        ("phyos", 190)
    } else if i == 249 {
        ("pika", 191)
    } else if i == 250 {
        ("pikaos", 191)
    } else if i == 251 {
        ("pisi", 192)
    } else if i == 252 {
        ("pnm", 193)
    } else if i == 253 {
        ("pnm linux", 193)
    } else if i == 254 {
        ("pop", 194)
    } else {
        ("pop!_os", 194)
    }
}

/// The names 256 to 287 with their groups.
pub open spec fn alias_block_8(i: int) -> (Seq<char>, int) {
    if i == 256 {
        ("pop_os"@, 194)
    } else if i == 257 {
        ("popos"@, 194)
    } else if i == 258 {
        ("porteus"@, 195)
    } else if i == 259 {
        ("postmarketos"@, 196)
    } else if i == 260 {
        ("proxmox"@, 197)
    } else if i == 261 {
        ("puffos"@, 199)
    } else if i == 262 {
        ("puppy"@, 200)
    } else if i == 263 {
        ("pureos"@, 198)
    } else if i == 264 {
        ("pve"@, 197)
    } else if i == 265 {
        ("q4os"@, 201)
    } else if i == 266 {
        ("qubes"@, 202)
    } else if i == 267 {
        ("qubyt"@, 203)
    } else if i == 268 {
        ("quibian"@, 204)
    } else if i == 269 {
        ("radix"@, 205)
    } else if i == 270 {
        ("raspbian"@, 206)
    } else if i == 271 {
        ("ravynos"@, 207)
    } else if i == 272 {
        ("reborn"@, 208)
    } else if i == 273 {
        ("reborn os"@, 208)
    } else if i == 274 {
        ("reborn-os"@, 208)
    } else if i == 275 {
        ("rebornos"@, 208)
    } else if i == 276 {
        ("red os"@, 212)
    } else if i == 277 {
        ("red-os"@, 212)
    } else if i == 278 {
        ("red_star"@, 209)
    } else if i == 279 {
        ("redcore"@, 210)
    } else if i == 280 {
        ("redhat"@, 211)
    } else if i == 281 {
        ("redhat enterprise linux"@, 211)
    } else if i == 282 {
        ("redos"@, 212)
    } else if i == 283 {
        ("redstar"@, 209)
    } else if i == 284 {
        ("redstar-os"@, 209)
    } else if i == 285 {
        ("redstaros"@, 209)
    } else if i == 286 {
        ("refracta"@, 213)
    } else {
        ("refracted devuan"@, 213)
    }
}

fn alias_block_at_8(i: usize) -> (entry: (&'static str, usize))
    requires
        256 <= i < 288,
    ensures
        entry.0@ == alias_block_8(i as int).0,
        entry.1 == alias_block_8(i as int).1,
        entry.1 < GROUP_COUNT,
{
    if i == 256 {
        ("pop_os", 194)
    } else if i == 257 {
        ("popos", 194)
    } else if i == 258 {
        ("porteus", 195)
    } else if i == 259 {
        ("postmarketos", 196)
    } else if i == 260 {
        ("proxmox", 197)
    } else if i == 261 {
        ("puffos", 199)
    } else if i == 262 {
        ("puppy", 200)
    } else if i == 263 {
        ("pureos", 198)
    } else if i == 264 {
        ("pve", 197)
    } else if i == 265 {
        ("q4os", 201)
    } else if i == 266 {
        ("qubes", 202)
    } else if i == 267 {
        ("qubyt", 203)
    } else if i == 268 {
        ("quibian", 204)
    } else if i == 269 {
        ("radix", 205)
    } else if i == 270 {
        ("raspbian", 206)
    } else if i == 271 {
        ("ravynos", 207)
    } else if i == 272 {
        ("reborn", 208)
    } else if i == 273 {
        ("reborn os", 208)
    } else if i == 274 {
        ("reborn-os", 208)
    } else if i == 275 {
        ("rebornos", 208)
    } else if i == 276 {
        ("red os", 212)
    } else if i == 277 {
        ("red-os", 212)
    } else if i == 278 {
        ("red_star", 209)
    } else if i == 279 {
        ("redcore", 210)
    } else if i == 280 {
        ("redhat", 211)
    } else if i == 281 {
        ("redhat enterprise linux", 211)
    } else if i == 282 {
        ("redos", 212)
    } else if i == 283 {
        ("redstar", 209)
    } else if i == 284 {
        ("redstar-os", 209)
    } else if i == 285 {
        ("redstaros", 209)
    } else if i == 286 {
        ("refracta", 213)
    } else {
        ("refracted devuan", 213)
    }
}

/// The names 288 to 319 with their groups.
pub open spec fn alias_block_9(i: int) -> (Seq<char>, int) {
    if i == 288 {
        ("refracted-devuan"@, 213)
    } else if i == 289 {
        ("regata"@, 214)
    } else if i == 290 {
        ("regolith"@, 215)
    } else if i == 291 {
        ("rhaymos"@, 216)
    } else if i == 292 {
        ("rhel"@, 211)
    } else if i == 293 {
        ("rocky"@, 217)
    } else if i == 294 {
        ("rockylinux"@, 217)
    } else if i == 295 {
        ("rosa"@, 218)
    } else if i == 296 {
        ("sabayon"@, 219)
    } else if i == 297 {
        ("sabotage"@, 220)
    } else if i == 298 {
        ("sailfishos"@, 221)
    } else if i == 299 {
        ("salentos"@, 222)
    } else if i == 300 {
        ("salientos"@, 223)
    } else if i == 301 {
        ("salix"@, 224)
    } else if i == 302 {
        ("samberos"@, 225)
    } else if i == 303 {
        ("sasanqua"@, 226)
    } else if i == 304 {
        ("scientific"@, 227)
    } else if i == 305 {
        ("semc"@, 228)
    } else if i == 306 {
        ("septor"@, 229)
    } else if i == 307 {
        ("serene"@, 230)
    } else if i == 308 {
        ("sharklinux"@, 231)
    } else if i == 309 {
        ("shastraos"@, 232)
    } else if i == 310 {
        ("siduction"@, 233)
    } else if i == 311 {
        ("skiffos"@, 235)
    } else if i == 312 {
        ("skinux"@, 234)
    } else if i == 313 {
        ("slackware"@, 236)
    } else if i == 314 {
        ("slax"@, 237)
    } else if i == 315 {
        ("slitaz"@, 238)
    } else if i == 316 {
        ("smartos"@, 239)
    } else if i == 317 {
        ("soda"@, 240)
    } else if i == 318 {
        ("solaris"@, 241)
    } else {
        ("solus"@, 242)
    }
}

fn alias_block_at_9(i: usize) -> (entry: (&'static str, usize))
    requires
        288 <= i < 320,
    ensures
        entry.0@ == alias_block_9(i as int).0,
        entry.1 == alias_block_9(i as int).1,
        entry.1 < GROUP_COUNT,
{
    if i == 288 {
        ("refracted-devuan", 213)
    } else if i == 289 {
        ("regata", 214)
    } else if i == 290 {
        ("regolith", 215)
    } else if i == 291 {
        ("rhaymos", 216)
    } else if i == 292 {
        ("rhel", 211)
    } else if i == 293 {
        ("rocky", 217)
    } else if i == 294 {
        ("rockylinux", 217)
    } else if i == 295 {
        ("rosa", 218)
    } else if i == 296 {
        ("sabayon", 219)
    } else if i == 297 {
        ("sabotage", 220)
    } else if i == 298 {
        ("sailfishos", 221)
    } else if i == 299 {
        ("salentos", 222)
    } else if i == 300 {
        ("salientos", 223)
    } else if i == 301 {
        ("salix", 224)
    } else if i == 302 {
        ("samberos", 225)
    } else if i == 303 {
        ("sasanqua", 226)
    } else if i == 304 {
        ("scientific", 227)
    } else if i == 305 {
        ("semc", 228)
    } else if i == 306 {
        ("septor", 229)
    } else if i == 307 {
        ("serene", 230)
    } else if i == 308 {
        ("sharklinux", 231)
    } else if i == 309 {
        ("shastraos", 232)
    } else if i == 310 {
        ("siduction", 233)
    } else if i == 311 {
        ("skiffos", 235)
    } else if i == 312 {
        ("skinux", 234)
    } else if i == 313 {
        ("slackware", 236)
    } else if i == 314 {
        ("slax", 237)
    } else if i == 315 {
        ("slitaz", 238)
    } else if i == 316 {
        ("smartos", 239)
    } else if i == 317 {
        ("soda", 240)
    } else if i == 318 {
        ("solaris", 241)
    } else {
        ("solus", 242)
    }
}

/// The names 320 to 351 with their groups.
pub open spec fn alias_block_10(i: int) -> (Seq<char>, int) {
    if i == 320 {
        ("source-mage"@, 243)
    } else if i == 321 {
        ("source_mage"@, 243)
    } else if i == 322 {
        ("sparky"@, 244)
    } else if i == 323 {
        ("springdale"@, 245)
    } else if i == 324 {
        ("star"@, 246)
    } else if i == 325 {
        ("steamos"@, 247)
    } else if i == 326 {
        ("stock"@, 248)
    } else if i == 327 {
        ("sulin"@, 249)
    } else if i == 328 {
        ("sunos"@, 250)
    } else if i == 329 {
        ("suse"@, 164)
    } else if i == 330 {
        ("swagarch"@, 251)
    } else if i == 331 {
        ("t2"@, 252)
    } else if i == 332 {
        ("tails"@, 253)
    } else if i == 333 {
        ("tatra"@, 254)
    } else if i == 334 {
        ("tearch"@, 255)
    } else if i == 335 {
        ("terrame"@, 256)
    } else if i == 336 {
        ("tinycore"@, 257)
    } else if i == 337 {
        ("tokaos"@, 258)
    } else if i == 338 {
        ("torizoncore"@, 259)
    } else if i == 339 {
        ("trisquel"@, 260)
    } else if i == 340 {
        ("tuxedoos"@, 261)
    } else if i == 341 {
        ("ubuntu"@, 262)
    } else if i == 342 {
        ("ubuntu-budgie"@, 263)
    } else if i == 343 {
        ("ubuntu-cinnamon"@, 264)
    } else if i == 344 {
        ("ubuntu-gnome"@, 265)
    } else if i == 345 {
        ("ubuntu-kylin"@, 266)
    } else if i == 346 {
        ("ubuntu-mate"@, 267)
    } else if i == 347 {
        ("ubuntu-studio"@, 268)
    } else if i == 348 {
        ("ubuntu-sway"@, 269)
    } else if i == 349 {
        ("ubuntu-touch"@, 270)
    } else if i == 350 {
        ("ubuntu-unity"@, 271)
    } else {
        ("ubuntu_budgie"@, 263)
    }
}

fn alias_block_at_10(i: usize) -> (entry: (&'static str, usize))
    requires
        320 <= i < 352,
    ensures
        entry.0@ == alias_block_10(i as int).0,
        entry.1 == alias_block_10(i as int).1,
        entry.1 < GROUP_COUNT,
{
    if i == 320 {
        ("source-mage", 243)
    } else if i == 321 {
        ("source_mage", 243)
    } else if i == 322 {
        ("sparky", 244)
    } else if i == 323 {
        ("springdale", 245)
    } else if i == 324 {
        ("star", 246)
    } else if i == 325 {
        ("steamos", 247)
    } else if i == 326 {
        ("stock", 248)
    } else if i == 327 {
        ("sulin", 249)
    } else if i == 328 {
        ("sunos", 250)
    } else if i == 329 {
        ("suse", 164)
    } else if i == 330 {
        ("swagarch", 251)
    } else if i == 331 {
        ("t2", 252)
    } else if i == 332 {
        ("tails", 253)
    } else if i == 333 {
        ("tatra", 254)
    } else if i == 334 {
        ("tearch", 255)
    } else if i == 335 {
        ("terrame", 256)
    } else if i == 336 {
        ("tinycore", 257)
    } else if i == 337 {
        ("tokaos", 258)
    } else if i == 338 {
        ("torizoncore", 259)
    } else if i == 339 {
        ("trisquel", 260)
    } else if i == 340 {
        ("tuxedoos", 261)
    } else if i == 341 {
        ("ubuntu", 262)
    } else if i == 342 {
        ("ubuntu-budgie", 263)
    } else if i == 343 {
        ("ubuntu-cinnamon", 264)
    } else if i == 344 {
        ("ubuntu-gnome", 265)
    } else if i == 345 {
        ("ubuntu-kylin", 266)
    } else if i == 346 {
        ("ubuntu-mate", 267)
    } else if i == 347 {
        ("ubuntu-studio", 268)
    } else if i == 348 {
        ("ubuntu-sway", 269)
    } else if i == 349 {
        ("ubuntu-touch", 270)
    } else if i == 350 {
        ("ubuntu-unity", 271)
    } else {
        ("ubuntu_budgie", 263)
    }
}

/// The names 352 to 383 with their groups.
pub open spec fn alias_block_11(i: int) -> (Seq<char>, int) {
    if i == 352 {
        ("ubuntu_cinnamon"@, 264)
    } else if i == 353 {
        ("ubuntu_gnome"@, 265)
    } else if i == 354 {
        ("ubuntu_kylin"@, 266)
    } else if i == 355 {
        ("ubuntu_mate"@, 267)
    } else if i == 356 {
        ("ubuntu_studio"@, 268)
    } else if i == 357 {
        ("ubuntu_sway"@, 269)
    } else if i == 358 {
        ("ubuntu_touch"@, 270)
    } else if i == 359 {
        ("ubuntu_unity"@, 271)
    } else if i == 360 {
        ("ultramarine"@, 272)
    } else if i == 361 {
        ("univalent"@, 273)
    } else if i == 362 {
        ("univention"@, 274)
    } else if i == 363 {
        ("uruk"@, 275)
    } else if i == 364 {
        ("uwuntu"@, 276)
    } else if i == 365 {
        ("valhalla"@, 277)
    } else if i == 366 {
        ("valhalla-linux"@, 277)
    } else if i == 367 {
        ("valhallaos"@, 277)
    } else if i == 368 {
        ("vanilla"@, 278)
    } else if i == 369 {
        ("vanilla-linux"@, 278)
    } else if i == 370 {
        ("vanilla-linux-small"@, 280)
    } else if i == 371 {
        ("vanilla-linux2"@, 279)
    } else if i == 372 {
        ("vanilla-os"@, 278)
    } else if i == 373 {
        ("vanilla-os-small"@, 280)
    } else if i == 374 {
        ("vanilla-os2"@, 279)
    } else if i == 375 {
        ("vanilla-small"@, 280)
    } else if i == 376 {
        ("vanilla2"@, 279)
    } else if i == 377 {
        ("venom"@, 281)
    } else if i == 378 {
        ("vnux"@, 282)
    } else if i == 379 {
        ("void"@, 283)
    } else if i == 380 {
        ("void-linux"@, 283)
    } else if i == 381 {
        ("vzlinux"@, 284)
    } else if i == 382 {
        ("wii-linux-ngx"@, 285)
    } else {
        ("wiilinuxngx"@, 285)
    }
}

fn alias_block_at_11(i: usize) -> (entry: (&'static str, usize))
    requires
        352 <= i < 384,
    ensures
        entry.0@ == alias_block_11(i as int).0,
        entry.1 == alias_block_11(i as int).1,
        entry.1 < GROUP_COUNT,
{
    if i == 352 {
        ("ubuntu_cinnamon", 264)
    } else if i == 353 {
        ("ubuntu_gnome", 265)
    } else if i == 354 {
        ("ubuntu_kylin", 266)
    } else if i == 355 {
        ("ubuntu_mate", 267)
    } else if i == 356 {
        ("ubuntu_studio", 268)
    } else if i == 357 {
        ("ubuntu_sway", 269)
    } else if i == 358 {
        ("ubuntu_touch", 270)
    } else if i == 359 {
        ("ubuntu_unity", 271)
    } else if i == 360 {
        ("ultramarine", 272)
    } else if i == 361 {
        ("univalent", 273)
    } else if i == 362 {
        ("univention", 274)
    } else if i == 363 {
        ("uruk", 275)
    } else if i == 364 {
        ("uwuntu", 276)
    } else if i == 365 {
        ("valhalla", 277)
    } else if i == 366 {
        ("valhalla-linux", 277)
    } else if i == 367 {
        ("valhallaos", 277)
    } else if i == 368 {
        ("vanilla", 278)
    } else if i == 369 {
        ("vanilla-linux", 278)
    } else if i == 370 {
        ("vanilla-linux-small", 280)
    } else if i == 371 {
        ("vanilla-linux2", 279)
    } else if i == 372 {
        ("vanilla-os", 278)
    } else if i == 373 {
        ("vanilla-os-small", 280)
    } else if i == 374 {
        ("vanilla-os2", 279)
    } else if i == 375 {
        ("vanilla-small", 280)
    } else if i == 376 {
        ("vanilla2", 279)
    } else if i == 377 {
        ("venom", 281)
    } else if i == 378 {
        ("vnux", 282)
    } else if i == 379 {
        ("void", 283)
    } else if i == 380 {
        ("void-linux", 283)
    } else if i == 381 {
        ("vzlinux", 284)
    } else if i == 382 {
        ("wii-linux-ngx", 285)
    } else {
        ("wiilinuxngx", 285)
    }
}

/// The names 384 to 415 with their groups.
pub open spec fn alias_block_12(i: int) -> (Seq<char>, int) {
    if i == 384 {
        ("windows"@, 290)
    } else if i == 385 {
        ("windows 10"@, 289)
    } else if i == 386 {
        ("windows 11"@, 287)
    } else if i == 387 {
        ("windows 11-small"@, 288)
    } else if i == 388 {
        ("windows 11_small"@, 288)
    } else if i == 389 {
        ("windows 7"@, 290)
    } else if i == 390 {
        ("windows 8"@, 289)
    } else if i == 391 {
        ("windows 8.1"@, 289)
    } else if i == 392 {
        ("windows 95"@, 291)
    } else if i == 393 {
        ("windows 9x"@, 291)
    } else if i == 394 {
        ("windows server 2008"@, 290)
    } else if i == 395 {
        ("windows server 2008 r2"@, 290)
    } else if i == 396 {
        ("windows server 2012"@, 289)
    } else if i == 397 {
        ("windows server 2012 r2"@, 289)
    } else if i == 398 {
        ("windows server 2016"@, 289)
    } else if i == 399 {
        ("windows server 2019"@, 289)
    } else if i == 400 {
        ("windows server 2022"@, 287)
    } else if i == 401 {
        ("windows server 2025"@, 286)
    } else if i == 402 {
        ("xcp-ng"@, 293)
    } else if i == 403 {
        ("xenenterprise"@, 293)
    } else if i == 404 {
        ("xenia"@, 292)
    } else if i == 405 {
        ("xeroarch"@, 294)
    } else if i == 406 {
        ("xferience"@, 296)
    } else if i == 407 {
        ("xray_os"@, 295)
    } else if i == 408 {
        ("xubuntu"@, 297)
    } else if i == 409 {
        ("yiffos"@, 298)
    } else if i == 410 {
        ("z/os"@, 300)
    } else if i == 411 {
        ("zorin"@, 299)
    } else if i == 412 {
        ("zorin-linux"@, 299)
    } else if i == 413 {
        ("zorinos"@, 299)
    } else if i == 414 {
        ("zorinos-linux"@, 299)
    } else {
        ("zos"@, 300)
    }
}

fn alias_block_at_12(i: usize) -> (entry: (&'static str, usize))
    requires
        384 <= i < 416,
    ensures
        entry.0@ == alias_block_12(i as int).0,
        entry.1 == alias_block_12(i as int).1,
        entry.1 < GROUP_COUNT,
{
    if i == 384 {
        ("windows", 290)
    } else if i == 385 {
        ("windows 10", 289)
    } else if i == 386 {
        ("windows 11", 287)
    } else if i == 387 {
        ("windows 11-small", 288)
    } else if i == 388 {
        ("windows 11_small", 288)
    } else if i == 389 {
        ("windows 7", 290)
    } else if i == 390 {
        ("windows 8", 289)
    } else if i == 391 {
        ("windows 8.1", 289)
    } else if i == 392 {
        ("windows 95", 291)
    } else if i == 393 {
        ("windows 9x", 291)
    } else if i == 394 {
        ("windows server 2008", 290)
    } else if i == 395 {
        ("windows server 2008 r2", 290)
    } else if i == 396 {
        ("windows server 2012", 289)
    } else if i == 397 {
        ("windows server 2012 r2", 289)
    } else if i == 398 {
        ("windows server 2016", 289)
    } else if i == 399 {
        ("windows server 2019", 289)
    } else if i == 400 {
        ("windows server 2022", 287)
    } else if i == 401 {
        ("windows server 2025", 286)
    } else if i == 402 {
        ("xcp-ng", 293)
    } else if i == 403 {
        ("xenenterprise", 293)
    } else if i == 404 {
        ("xenia", 292)
    } else if i == 405 {
        ("xeroarch", 294)
    } else if i == 406 {
        ("xferience", 296)
    } else if i == 407 {
        ("xray_os", 295)
    } else if i == 408 {
        ("xubuntu", 297)
    } else if i == 409 {
        ("yiffos", 298)
    } else if i == 410 {
        ("z/os", 300)
    } else if i == 411 {
        ("zorin", 299)
    } else if i == 412 {
        ("zorin-linux", 299)
    } else if i == 413 {
        ("zorinos", 299)
    } else if i == 414 {
        ("zorinos-linux", 299)
    } else {
        ("zos", 300)
    }
}

/// The name at position `i` of the table and the group it belongs to.
pub open spec fn alias_entry(i: int) -> (Seq<char>, int) {
    if i < 32 {
        alias_block_0(i)
    } else if i < 64 {
        alias_block_1(i)
    } else if i < 96 {
        alias_block_2(i)
    } else if i < 128 {
        alias_block_3(i)
    } else if i < 160 {
        alias_block_4(i)
    } else if i < 192 {
        alias_block_5(i)
    } else if i < 224 {
        alias_block_6(i)
    } else if i < 256 {
        alias_block_7(i)
    } else if i < 288 {
        alias_block_8(i)
    } else if i < 320 {
        alias_block_9(i)
    } else if i < 352 {
        alias_block_10(i)
    } else if i < 384 {
        alias_block_11(i)
    } else {
        alias_block_12(i)
    }
}

/// The name at position `i` of the table and the group it belongs to.
pub fn alias_at(i: usize) -> (entry: (&'static str, usize))
    requires
        i < ALIAS_COUNT,
    ensures
        entry.0@ == alias_entry(i as int).0,
        entry.1 == alias_entry(i as int).1,
        entry.1 < GROUP_COUNT,
{
    if i < 32 {
        alias_block_at_0(i)
    } else if i < 64 {
        alias_block_at_1(i)
    } else if i < 96 {
        alias_block_at_2(i)
    } else if i < 128 {
        alias_block_at_3(i)
    } else if i < 160 {
        alias_block_at_4(i)
    } else if i < 192 {
        alias_block_at_5(i)
    } else if i < 224 {
        alias_block_at_6(i)
    } else if i < 256 {
        alias_block_at_7(i)
    } else if i < 288 {
        alias_block_at_8(i)
    } else if i < 320 {
        alias_block_at_9(i)
    } else if i < 352 {
        alias_block_at_10(i)
    } else if i < 384 {
        alias_block_at_11(i)
    } else {
        alias_block_at_12(i)
    }
}

/// The colours of the groups 0 to 31.
pub open spec fn color_block_0(g: int) -> Seq<Color> {
    if g == 0 {
        seq![Color::Blue, Color::White, Color::Cyan]
    } else if g == 1 {
        seq![Color::Cyan, Color::Cyan]
    } else if g == 2 {
        seq![Color::Magenta, Color::Red, Color::Yellow, Color::Blue]
    } else if g == 3 {
        seq![Color::Green, Color::White]
    } else if g == 4 {
        seq![Color::Red, Color::Yellow, Color::Blue, Color::Green, Color::Cyan]
    } else if g == 5 {
        seq![Color::Blue]
    } else if g == 6 {
        seq![Color::Blue, Color::White]
    } else if g == 7 {
        seq![Color::Blue, Color::White]
    } else if g == 8 {
        seq![Color::Cyan]
    } else if g == 9 {
        seq![Color::Yellow, Color::DarkYellow]
    } else if g == 10 {
        seq![Color::Blue]
    } else if g == 11 {
        seq![Color::Green]
    } else if g == 12 {
        seq![Color::Blue, Color::Cyan]
    } else if g == 13 {
        seq![Color::Red, Color::Cyan, Color::White]
    } else if g == 14 {
        seq![Color::Blue, Color::Black]
    } else if g == 15 {
        seq![Color::White]
    } else if g == 16 {
        seq![Color::White, Color::Blue]
    } else if g == 17 {
        seq![Color::Cyan, Color::Green, Color::Red, Color::Yellow, Color::Blue, Color::Magenta]
    } else if g == 18 {
        seq![Color::Cyan, Color::Cyan]
    } else if g == 19 {
        seq![Color::Cyan, Color::Cyan]
    } else if g == 20 {
        seq![Color::Blue]
    } else if g == 21 {
        seq![Color::Green, Color::Red, Color::Yellow]
    } else if g == 22 {
        seq![Color::Red]
    } else if g == 23 {
        seq![Color::Cyan]
    } else if g == 24 {
        seq![Color::Yellow, Color::Cyan, Color::Red, Color::Red, Color::White, Color::Black, Color::Cyan]
    } else if g == 25 {
        seq![Color::Cyan]
    } else if g == 26 {
        seq![Color::AnsiValue(160), Color::AnsiValue(208), Color::AnsiValue(202), Color::AnsiValue(214)]
    } else if g == 27 {
        seq![Color::White]
    } else if g == 28 {
        seq![Color::Red, Color::White]
    } else if g == 29 {
        seq![Color::White, Color::Yellow]
    } else if g == 30 {
        seq![Color::Cyan, Color::Red]
    } else {
        seq![Color::Red]
    }
}

fn color_block_at_0(g: usize) -> (colors: Vec<Color>)
    requires
        0 <= g < 32,
    ensures
        colors@ == color_block_0(g as int),
{
    if g == 0 {
        vec![Color::Blue, Color::White, Color::Cyan]
    } else if g == 1 {
        vec![Color::Cyan, Color::Cyan]
    } else if g == 2 {
        vec![Color::Magenta, Color::Red, Color::Yellow, Color::Blue]
    } else if g == 3 {
        vec![Color::Green, Color::White]
    } else if g == 4 {
        vec![Color::Red, Color::Yellow, Color::Blue, Color::Green, Color::Cyan]
    } else if g == 5 {
        vec![Color::Blue]
    } else if g == 6 {
        vec![Color::Blue, Color::White]
    } else if g == 7 {
        vec![Color::Blue, Color::White]
    } else if g == 8 {
        vec![Color::Cyan]
    } else if g == 9 {
        vec![Color::Yellow, Color::DarkYellow]
    } else if g == 10 {
        vec![Color::Blue]
    } else if g == 11 {
        vec![Color::Green]
    } else if g == 12 {
        vec![Color::Blue, Color::Cyan]
    } else if g == 13 {
        vec![Color::Red, Color::Cyan, Color::White]
    } else if g == 14 {
        vec![Color::Blue, Color::Black]
    } else if g == 15 {
        vec![Color::White]
    } else if g == 16 {
        vec![Color::White, Color::Blue]
    } else if g == 17 {
        vec![Color::Cyan, Color::Green, Color::Red, Color::Yellow, Color::Blue, Color::Magenta]
    } else if g == 18 {
        vec![Color::Cyan, Color::Cyan]
    } else if g == 19 {
        vec![Color::Cyan, Color::Cyan]
    } else if g == 20 {
        vec![Color::Blue]
    } else if g == 21 {
        vec![Color::Green, Color::Red, Color::Yellow]
    } else if g == 22 {
        vec![Color::Red]
    } else if g == 23 {
        vec![Color::Cyan]
    } else if g == 24 {
        vec![Color::Yellow, Color::Cyan, Color::Red, Color::Red, Color::White, Color::Black, Color::Cyan]
    } else if g == 25 {
        vec![Color::Cyan]
    } else if g == 26 {
        vec![Color::AnsiValue(160), Color::AnsiValue(208), Color::AnsiValue(202), Color::AnsiValue(214)]
    } else if g == 27 {
        vec![Color::White]
    } else if g == 28 {
        vec![Color::Red, Color::White]
    } else if g == 29 {
        vec![Color::White, Color::Yellow]
    } else if g == 30 {
        vec![Color::Cyan, Color::Red]
    } else {
        vec![Color::Red]
    }
}

/// The colours of the groups 32 to 63.
pub open spec fn color_block_1(g: int) -> Seq<Color> {
    if g == 32 {
        seq![Color::DarkGrey, Color::White]
    } else if g == 33 {
        seq![Color::Cyan, Color::Yellow, Color::Blue]
    } else if g == 34 {
        seq![Color::Green]
    } else if g == 35 {
        seq![Color::Red, Color::Red, Color::Black]
    } else if g == 36 {
        seq![Color::Black]
    } else if g == 37 {
        seq![Color::Red, Color::Yellow, Color::Blue]
    } else if g == 38 {
        seq![Color::Magenta]
    } else if g == 39 {
        seq![Color::Red, Color::White]
    } else if g == 40 {
        seq![Color::White, Color::Blue]
    } else if g == 41 {
        seq![Color::White, Color::Yellow, Color::Green]
    } else if g == 42 {
        seq![Color::Cyan, Color::Green, Color::Yellow]
    } else if g == 43 {
        seq![Color::Red, Color::White, Color::Blue, Color::Red]
    } else if g == 44 {
        seq![Color::DarkGrey, Color::Grey, Color::Yellow]
    } else if g == 45 {
        seq![Color::Cyan, Color::Green]
    } else if g == 46 {
        seq![Color::DarkYellow, Color::White]
    } else if g == 47 {
        seq![Color::Green, Color::Yellow]
    } else if g == 48 {
        seq![Color::Blue]
    } else if g == 49 {
        seq![Color::White]
    } else if g == 50 {
        seq![Color::Yellow, Color::Green, Color::Blue, Color::Magenta, Color::White]
    } else if g == 51 {
        seq![Color::AnsiValue(173), Color::AnsiValue(108), Color::AnsiValue(71), Color::AnsiValue(151), Color::AnsiValue(72)]
    } else if g == 52 {
        seq![Color::Blue]
    } else if g == 53 {
        seq![Color::Blue, Color::White]
    } else if g == 54 {
        seq![Color::Green, Color::White]
    } else if g == 55 {
        seq![Color::Red, Color::Magenta, Color::Blue, Color::Red]
    } else if g == 56 {
        seq![Color::White]
    } else if g == 57 {
        seq![Color::Blue, Color::Cyan]
    } else if g == 58 {
        seq![Color::White]
    } else if g == 59 {
        seq![Color::Green, Color::Yellow, Color::Red]
    } else if g == 60 {
        seq![Color::Green, Color::Cyan]
    } else if g == 61 {
        seq![Color::Blue]
    } else if g == 62 {
        seq![Color::Green, Color::Yellow, Color::Red]
    } else {
        seq![Color::Blue, Color::White]
    }
}

fn color_block_at_1(g: usize) -> (colors: Vec<Color>)
    requires
        32 <= g < 64,
    ensures
        colors@ == color_block_1(g as int),
{
    if g == 32 {
        vec![Color::DarkGrey, Color::White]
    } else if g == 33 {
        vec![Color::Cyan, Color::Yellow, Color::Blue]
    } else if g == 34 {
        vec![Color::Green]
    } else if g == 35 {
        vec![Color::Red, Color::Red, Color::Black]
    } else if g == 36 {
        vec![Color::Black]
    } else if g == 37 {
        vec![Color::Red, Color::Yellow, Color::Blue]
    } else if g == 38 {
        vec![Color::Magenta]
    } else if g == 39 {
        vec![Color::Red, Color::White]
    } else if g == 40 {
        vec![Color::White, Color::Blue]
    } else if g == 41 {
        vec![Color::White, Color::Yellow, Color::Green]
    } else if g == 42 {
        vec![Color::Cyan, Color::Green, Color::Yellow]
    } else if g == 43 {
        vec![Color::Red, Color::White, Color::Blue, Color::Red]
    } else if g == 44 {
        vec![Color::DarkGrey, Color::Grey, Color::Yellow]
    } else if g == 45 {
        vec![Color::Cyan, Color::Green]
    } else if g == 46 {
        vec![Color::DarkYellow, Color::White]
    } else if g == 47 {
        vec![Color::Green, Color::Yellow]
    } else if g == 48 {
        vec![Color::Blue]
    } else if g == 49 {
        vec![Color::White]
    } else if g == 50 {
        vec![Color::Yellow, Color::Green, Color::Blue, Color::Magenta, Color::White]
    } else if g == 51 {
        vec![Color::AnsiValue(173), Color::AnsiValue(108), Color::AnsiValue(71), Color::AnsiValue(151), Color::AnsiValue(72)]
    } else if g == 52 {
        vec![Color::Blue]
    } else if g == 53 {
        vec![Color::Blue, Color::White]
    } else if g == 54 {
        vec![Color::Green, Color::White]
    } else if g == 55 {
        vec![Color::Red, Color::Magenta, Color::Blue, Color::Red]
    } else if g == 56 {
        vec![Color::White]
    } else if g == 57 {
        vec![Color::Blue, Color::Cyan]
    } else if g == 58 {
        vec![Color::White]
    } else if g == 59 {
        vec![Color::Green, Color::Yellow, Color::Red]
    } else if g == 60 {
        vec![Color::Green, Color::Cyan]
    } else if g == 61 {
        vec![Color::Blue]
    } else if g == 62 {
        vec![Color::Green, Color::Yellow, Color::Red]
    } else {
        vec![Color::Blue, Color::White]
    }
}

/// The colours of the groups 64 to 95.
pub open spec fn color_block_2(g: int) -> Seq<Color> {
    if g == 64 {
        seq![Color::Magenta, Color::Black]
    } else if g == 65 {
        seq![Color::Red, Color::Green]
    } else if g == 66 {
        seq![Color::Red, Color::DarkRed]
    } else if g == 67 {
        seq![Color::Green, Color::Cyan]
    } else if g == 68 {
        seq![Color::Green]
    } else if g == 69 {
        seq![Color::DarkGrey]
    } else if g == 70 {
        seq![Color::Green, Color::Black]
    } else if g == 71 {
        seq![Color::Red, Color::White]
    } else if g == 72 {
        seq![Color::Red]
    } else if g == 73 {
        seq![Color::Green]
    } else if g == 74 {
        seq![Color::Blue, Color::Black]
    } else if g == 75 {
        seq![Color::Blue, Color::White]
    } else if g == 76 {
        seq![Color::Magenta, Color::Red, Color::Blue]
    } else if g == 77 {
        seq![Color::DarkYellow, Color::Red]
    } else if g == 78 {
        seq![Color::Black]
    } else if g == 79 {
        seq![Color::Red]
    } else if g == 80 {
        seq![Color::Blue, Color::White]
    } else if g == 81 {
        seq![Color::Blue, Color::Red]
    } else if g == 82 {
        seq![Color::Blue, Color::White]
    } else if g == 83 {
        seq![Color::Magenta, Color::White, Color::Magenta]
    } else if g == 84 {
        seq![Color::Blue]
    } else if g == 85 {
        seq![Color::Blue, Color::White]
    } else if g == 86 {
        seq![Color::Red, Color::White]
    } else if g == 87 {
        seq![Color::White]
    } else if g == 88 {
        seq![Color::Blue, Color::DarkGrey]
    } else if g == 89 {
        seq![Color::Magenta, Color::White]
    } else if g == 90 {
        seq![Color::Blue, Color::Cyan, Color::White]
    } else if g == 91 {
        seq![Color::Blue, Color::White]
    } else if g == 92 {
        seq![Color::Red]
    } else if g == 93 {
        seq![Color::Magenta, Color::White]
    } else if g == 94 {
        seq![Color::Blue]
    } else {
        seq![Color::Blue]
    }
}

fn color_block_at_2(g: usize) -> (colors: Vec<Color>)
    requires
        64 <= g < 96,
    ensures
        colors@ == color_block_2(g as int),
{
    if g == 64 {
        vec![Color::Magenta, Color::Black]
    } else if g == 65 {
        vec![Color::Red, Color::Green]
    } else if g == 66 {
        vec![Color::Red, Color::DarkRed]
    } else if g == 67 {
        vec![Color::Green, Color::Cyan]
    } else if g == 68 {
        vec![Color::Green]
    } else if g == 69 {
        vec![Color::DarkGrey]
    } else if g == 70 {
        vec![Color::Green, Color::Black]
    } else if g == 71 {
        vec![Color::Red, Color::White]
    } else if g == 72 {
        vec![Color::Red]
    } else if g == 73 {
        vec![Color::Green]
    } else if g == 74 {
        vec![Color::Blue, Color::Black]
    } else if g == 75 {
        vec![Color::Blue, Color::White]
    } else if g == 76 {
        vec![Color::Magenta, Color::Red, Color::Blue]
    } else if g == 77 {
        vec![Color::DarkYellow, Color::Red]
    } else if g == 78 {
        vec![Color::Black]
    } else if g == 79 {
        vec![Color::Red]
    } else if g == 80 {
        vec![Color::Blue, Color::White]
    } else if g == 81 {
        vec![Color::Blue, Color::Red]
    } else if g == 82 {
        vec![Color::Blue, Color::White]
    } else if g == 83 {
        vec![Color::Magenta, Color::White, Color::Magenta]
    } else if g == 84 {
        vec![Color::Blue]
    } else if g == 85 {
        vec![Color::Blue, Color::White]
    } else if g == 86 {
        vec![Color::Red, Color::White]
    } else if g == 87 {
        vec![Color::White]
    } else if g == 88 {
        vec![Color::Blue, Color::DarkGrey]
    } else if g == 89 {
        vec![Color::Magenta, Color::White]
    } else if g == 90 {
        vec![Color::Blue, Color::Cyan, Color::White]
    } else if g == 91 {
        vec![Color::Blue, Color::White]
    } else if g == 92 {
        vec![Color::Red]
    } else if g == 93 {
        vec![Color::Magenta, Color::White]
    } else if g == 94 {
        vec![Color::Blue]
    } else {
        vec![Color::Blue]
    }
}

/// The colours of the groups 96 to 127.
pub open spec fn color_block_3(g: int) -> Seq<Color> {
    if g == 96 {
        seq![Color::White, Color::Yellow]
    } else if g == 97 {
        seq![Color::Yellow, Color::Green, Color::Blue]
    } else if g == 98 {
        seq![Color::Blue, Color::Green, Color::Yellow, Color::Cyan]
    } else if g == 99 {
        seq![Color::Blue, Color::Cyan, Color::White]
    } else if g == 100 {
        seq![Color::Yellow, Color::White]
    } else if g == 101 {
        seq![Color::Green, Color::Black]
    } else if g == 102 {
        seq![Color::Green]
    } else if g == 103 {
        seq![Color::DarkYellow, Color::White]
    } else if g == 104 {
        seq![Color::Green, Color::Black]
    } else if g == 105 {
        seq![Color::Blue]
    } else if g == 106 {
        seq![Color::Blue, Color::Green]
    } else if g == 107 {
        seq![Color::DarkGrey]
    } else if g == 108 {
        seq![Color::White]
    } else if g == 109 {
        seq![Color::Blue]
    } else if g == 110 {
        seq![Color::Red, Color::White]
    } else if g == 111 {
        seq![Color::Blue]
    } else if g == 112 {
        seq![Color::Blue, Color::Magenta]
    } else if g == 113 {
        seq![Color::Red, Color::White]
    } else if g == 114 {
        seq![Color::Blue, Color::Black]
    } else if g == 115 {
        seq![Color::Blue, Color::Cyan]
    } else if g == 116 {
        seq![Color::Green, Color::Blue]
    } else if g == 117 {
        seq![Color::Green, Color::White, Color::Blue]
    } else if g == 118 {
        seq![Color::Magenta]
    } else if g == 119 {
        seq![Color::Blue]
    } else if g == 120 {
        seq![Color::Blue]
    } else if g == 121 {
        seq![Color::Blue]
    } else if g == 122 {
        seq![Color::Blue, Color::Cyan]
    } else if g == 123 {
        seq![Color::White, Color::Black]
    } else if g == 124 {
        seq![Color::Blue]
    } else if g == 125 {
        seq![Color::Green, Color::Yellow]
    } else if g == 126 {
        seq![Color::Blue, Color::Green]
    } else {
        seq![Color::Black, Color::White]
    }
}

fn color_block_at_3(g: usize) -> (colors: Vec<Color>)
    requires
        96 <= g < 128,
    ensures
        colors@ == color_block_3(g as int),
{
    if g == 96 {
        vec![Color::White, Color::Yellow]
    } else if g == 97 {
        vec![Color::Yellow, Color::Green, Color::Blue]
    } else if g == 98 {
        vec![Color::Blue, Color::Green, Color::Yellow, Color::Cyan]
    } else if g == 99 {
        vec![Color::Blue, Color::Cyan, Color::White]
    } else if g == 100 {
        vec![Color::Yellow, Color::White]
    } else if g == 101 {
        vec![Color::Green, Color::Black]
    } else if g == 102 {
        vec![Color::Green]
    } else if g == 103 {
        vec![Color::DarkYellow, Color::White]
    } else if g == 104 {
        vec![Color::Green, Color::Black]
    } else if g == 105 {
        vec![Color::Blue]
    } else if g == 106 {
        vec![Color::Blue, Color::Green]
    } else if g == 107 {
        vec![Color::DarkGrey]
    } else if g == 108 {
        vec![Color::White]
    } else if g == 109 {
        vec![Color::Blue]
    } else if g == 110 {
        vec![Color::Red, Color::White]
    } else if g == 111 {
        vec![Color::Blue]
    } else if g == 112 {
        vec![Color::Blue, Color::Magenta]
    } else if g == 113 {
        vec![Color::Red, Color::White]
    } else if g == 114 {
        vec![Color::Blue, Color::Black]
    } else if g == 115 {
        vec![Color::Blue, Color::Cyan]
    } else if g == 116 {
        vec![Color::Green, Color::Blue]
    } else if g == 117 {
        vec![Color::Green, Color::White, Color::Blue]
    } else if g == 118 {
        vec![Color::Magenta]
    } else if g == 119 {
        vec![Color::Blue]
    } else if g == 120 {
        vec![Color::Blue]
    } else if g == 121 {
        vec![Color::Blue]
    } else if g == 122 {
        vec![Color::Blue, Color::Cyan]
    } else if g == 123 {
        vec![Color::White, Color::Black]
    } else if g == 124 {
        vec![Color::Blue]
    } else if g == 125 {
        vec![Color::Green, Color::Yellow]
    } else if g == 126 {
        vec![Color::Blue, Color::Green]
    } else {
        vec![Color::Black, Color::White]
    }
}

/// The colours of the groups 128 to 159.
pub open spec fn color_block_4(g: int) -> Seq<Color> {
    if g == 128 {
        seq![Color::Yellow, Color::White]
    } else if g == 129 {
        seq![Color::Green, Color::White]
    } else if g == 130 {
        seq![Color::Green, Color::White]
    } else if g == 131 {
        seq![Color::Blue, Color::Yellow]
    } else if g == 132 {
        seq![Color::Cyan, Color::Magenta]
    } else if g == 133 {
        seq![Color::Green, Color::Yellow]
    } else if g == 134 {
        seq![Color::Blue, Color::Green]
    } else if g == 135 {
        seq![Color::Green]
    } else if g == 136 {
        seq![Color::White, Color::Red]
    } else if g == 137 {
        seq![Color::Cyan, Color::White]
    } else if g == 138 {
        seq![Color::Blue, Color::Cyan]
    } else if g == 139 {
        seq![Color::Blue]
    } else if g == 140 {
        seq![Color::Yellow, Color::DarkGrey]
    } else if g == 141 {
        seq![Color::Green, Color::White]
    } else if g == 142 {
        seq![Color::Blue]
    } else if g == 143 {
        seq![Color::Cyan, Color::White, Color::Red]
    } else if g == 144 {
        seq![Color::Yellow]
    } else if g == 145 {
        seq![Color::Blue, Color::Grey]
    } else if g == 146 {
        seq![Color::White, Color::Black]
    } else if g == 147 {
        seq![Color::DarkYellow]
    } else if g == 148 {
        seq![Color::Blue]
    } else if g == 149 {
        seq![Color::White]
    } else if g == 150 {
        seq![Color::DarkRed, Color::White]
    } else if g == 151 {
        seq![Color::Blue]
    } else if g == 152 {
        seq![Color::Blue]
    } else if g == 153 {
        seq![Color::Blue, Color::Cyan]
    } else if g == 154 {
        seq![Color::Blue]
    } else if g == 155 {
        seq![Color::Blue, Color::Red]
    } else if g == 156 {
        seq![Color::Cyan, Color::White, Color::Black]
    } else if g == 157 {
        seq![Color::Cyan]
    } else if g == 158 {
        seq![Color::DarkGrey, Color::Red]
    } else {
        seq![Color::Blue]
    }
}

fn color_block_at_4(g: usize) -> (colors: Vec<Color>)
    requires
        128 <= g < 160,
    ensures
        colors@ == color_block_4(g as int),
{
    if g == 128 {
        vec![Color::Yellow, Color::White]
    } else if g == 129 {
        vec![Color::Green, Color::White]
    } else if g == 130 {
        vec![Color::Green, Color::White]
    } else if g == 131 {
        vec![Color::Blue, Color::Yellow]
    } else if g == 132 {
        vec![Color::Cyan, Color::Magenta]
    } else if g == 133 {
        vec![Color::Green, Color::Yellow]
    } else if g == 134 {
        vec![Color::Blue, Color::Green]
    } else if g == 135 {
        vec![Color::Green]
    } else if g == 136 {
        vec![Color::White, Color::Red]
    } else if g == 137 {
        vec![Color::Cyan, Color::White]
    } else if g == 138 {
        vec![Color::Blue, Color::Cyan]
    } else if g == 139 {
        vec![Color::Blue]
    } else if g == 140 {
        vec![Color::Yellow, Color::DarkGrey]
    } else if g == 141 {
        vec![Color::Green, Color::White]
    } else if g == 142 {
        vec![Color::Blue]
    } else if g == 143 {
        vec![Color::Cyan, Color::White, Color::Red]
    } else if g == 144 {
        vec![Color::Yellow]
    } else if g == 145 {
        vec![Color::Blue, Color::Grey]
    } else if g == 146 {
        vec![Color::White, Color::Black]
    } else if g == 147 {
        vec![Color::DarkYellow]
    } else if g == 148 {
        vec![Color::Blue]
    } else if g == 149 {
        vec![Color::White]
    } else if g == 150 {
        vec![Color::DarkRed, Color::White]
    } else if g == 151 {
        vec![Color::Blue]
    } else if g == 152 {
        vec![Color::Blue]
    } else if g == 153 {
        vec![Color::Blue, Color::Cyan]
    } else if g == 154 {
        vec![Color::Blue]
    } else if g == 155 {
        vec![Color::Blue, Color::Red]
    } else if g == 156 {
        vec![Color::Cyan, Color::White, Color::Black]
    } else if g == 157 {
        vec![Color::Cyan]
    } else if g == 158 {
        vec![Color::DarkGrey, Color::Red]
    } else {
        vec![Color::Blue]
    }
}

/// The colours of the groups 160 to 191.
pub open spec fn color_block_5(g: int) -> Seq<Color> {
    if g == 160 {
        seq![Color::White, Color::Yellow]
    } else if g == 161 {
        seq![Color::Yellow, Color::White, Color::Cyan, Color::Red]
    } else if g == 162 {
        seq![Color::Blue]
    } else if g == 163 {
        seq![Color::Blue]
    } else if g == 164 {
        seq![Color::Green]
    } else if g == 165 {
        seq![Color::Green]
    } else if g == 166 {
        seq![Color::White]
    } else if g == 167 {
        seq![Color::White]
    } else if g == 168 {
        seq![Color::White]
    } else if g == 169 {
        seq![Color::White]
    } else if g == 170 {
        seq![Color::White]
    } else if g == 171 {
        seq![Color::Blue]
    } else if g == 172 {
        seq![Color::Blue]
    } else if g == 173 {
        seq![Color::DarkYellow, Color::DarkGrey]
    } else if g == 174 {
        seq![Color::Red]
    } else if g == 175 {
        seq![Color::White, Color::Magenta, Color::Magenta]
    } else if g == 176 {
        seq![Color::Blue, Color::White]
    } else if g == 177 {
        seq![Color::Blue, Color::White]
    } else if g == 178 {
        seq![Color::Green, Color::Yellow, Color::Red, Color::Magenta, Color::Blue]
    } else if g == 179 {
        seq![Color::Red, Color::White]
    } else if g == 180 {
        seq![Color::White, Color::Red]
    } else if g == 181 {
        seq![Color::Magenta]
    } else if g == 182 {
        seq![Color::Blue, Color::Cyan]
    } else if g == 183 {
        seq![Color::Green, Color::Cyan]
    } else if g == 184 {
        seq![Color::Yellow, Color::Red, Color::DarkGrey]
    } else if g == 185 {
        seq![Color::Green, Color::Yellow, Color::DarkYellow]
    } else if g == 186 {
        seq![Color::Magenta, Color::DarkGrey]
    } else if g == 187 {
        seq![Color::Magenta, Color::White]
    } else if g == 188 {
        seq![Color::Red, Color::Black]
    } else if g == 189 {
        seq![Color::White]
    } else if g == 190 {
        seq![Color::Blue, Color::White]
    } else {
        seq![Color::Yellow]
    }
}

fn color_block_at_5(g: usize) -> (colors: Vec<Color>)
    requires
        160 <= g < 192,
    ensures
        colors@ == color_block_5(g as int),
{
    if g == 160 {
        vec![Color::White, Color::Yellow]
    } else if g == 161 {
        vec![Color::Yellow, Color::White, Color::Cyan, Color::Red]
    } else if g == 162 {
        vec![Color::Blue]
    } else if g == 163 {
        vec![Color::Blue]
    } else if g == 164 {
        vec![Color::Green]
    } else if g == 165 {
        vec![Color::Green]
    } else if g == 166 {
        vec![Color::White]
    } else if g == 167 {
        vec![Color::White]
    } else if g == 168 {
        vec![Color::White]
    } else if g == 169 {
        vec![Color::White]
    } else if g == 170 {
        vec![Color::White]
    } else if g == 171 {
        vec![Color::Blue]
    } else if g == 172 {
        vec![Color::Blue]
    } else if g == 173 {
        vec![Color::DarkYellow, Color::DarkGrey]
    } else if g == 174 {
        vec![Color::Red]
    } else if g == 175 {
        vec![Color::White, Color::Magenta, Color::Magenta]
    } else if g == 176 {
        vec![Color::Blue, Color::White]
    } else if g == 177 {
        vec![Color::Blue, Color::White]
    } else if g == 178 {
        vec![Color::Green, Color::Yellow, Color::Red, Color::Magenta, Color::Blue]
    } else if g == 179 {
        vec![Color::Red, Color::White]
    } else if g == 180 {
        vec![Color::White, Color::Red]
    } else if g == 181 {
        vec![Color::Magenta]
    } else if g == 182 {
        vec![Color::Blue, Color::Cyan]
    } else if g == 183 {
        vec![Color::Green, Color::Cyan]
    } else if g == 184 {
        vec![Color::Yellow, Color::Red, Color::DarkGrey]
    } else if g == 185 {
        vec![Color::Green, Color::Yellow, Color::DarkYellow]
    } else if g == 186 {
        vec![Color::Magenta, Color::DarkGrey]
    } else if g == 187 {
        vec![Color::Magenta, Color::White]
    } else if g == 188 {
        vec![Color::Red, Color::Black]
    } else if g == 189 {
        vec![Color::White]
    } else if g == 190 {
        vec![Color::Blue, Color::White]
    } else {
        vec![Color::Yellow]
    }
}

/// The colours of the groups 192 to 223.
pub open spec fn color_block_6(g: int) -> Seq<Color> {
    if g == 192 {
        seq![Color::Blue, Color::White]
    } else if g == 193 {
        seq![Color::Blue, Color::Red, Color::White, Color::AnsiValue(202)]
    } else if g == 194 {
        seq![Color::Cyan, Color::White]
    } else if g == 195 {
        seq![Color::Cyan, Color::White]
    } else if g == 196 {
        seq![Color::Green, Color::White]
    } else if g == 197 {
        seq![Color::White, Color::AnsiValue(202)]
    } else if g == 198 {
        seq![Color::Green]
    } else if g == 199 {
        seq![Color::Yellow, Color::White]
    } else if g == 200 {
        seq![Color::Cyan]
    } else if g == 201 {
        seq![Color::Blue, Color::Red]
    } else if g == 202 {
        seq![Color::Blue]
    } else if g == 203 {
        seq![Color::Cyan]
    } else if g == 204 {
        seq![Color::Yellow]
    } else if g == 205 {
        seq![Color::Green, Color::Red]
    } else if g == 206 {
        seq![Color::Red, Color::Green]
    } else if g == 207 {
        seq![Color::AnsiValue(15), Color::White]
    } else if g == 208 {
        seq![Color::Black, Color::Blue, Color::Cyan]
    } else if g == 209 {
        seq![Color::Red]
    } else if g == 210 {
        seq![Color::Red, Color::White]
    } else if g == 211 {
        seq![Color::Red]
    } else if g == 212 {
        seq![Color::Red, Color::White]
    } else if g == 213 {
        seq![Color::Black, Color::DarkGrey]
    } else if g == 214 {
        seq![Color::Red, Color::Green, Color::Blue]
    } else if g == 215 {
        seq![Color::Red, Color::DarkGrey]
    } else if g == 216 {
        seq![Color::Red, Color::Green, Color::Yellow, Color::Blue, Color::Magenta]
    } else if g == 217 {
        seq![Color::Green]
    } else if g == 218 {
        seq![Color::Blue]
    } else if g == 219 {
        seq![Color::Blue, Color::White]
    } else if g == 220 {
        seq![Color::White]
    } else if g == 221 {
        seq![Color::Blue]
    } else if g == 222 {
        seq![Color::Green, Color::Red, Color::White]
    } else {
        seq![Color::Yellow, Color::White, Color::Blue, Color::Yellow]
    }
}

fn color_block_at_6(g: usize) -> (colors: Vec<Color>)
    requires
        192 <= g < 224,
    ensures
        colors@ == color_block_6(g as int),
{
    if g == 192 {
        vec![Color::Blue, Color::White]
    } else if g == 193 {
        vec![Color::Blue, Color::Red, Color::White, Color::AnsiValue(202)]
    } else if g == 194 {
        vec![Color::Cyan, Color::White]
    } else if g == 195 {
        vec![Color::Cyan, Color::White]
    } else if g == 196 {
        vec![Color::Green, Color::White]
    } else if g == 197 {
        vec![Color::White, Color::AnsiValue(202)]
    } else if g == 198 {
        vec![Color::Green]
    } else if g == 199 {
        vec![Color::Yellow, Color::White]
    } else if g == 200 {
        vec![Color::Cyan]
    } else if g == 201 {
        vec![Color::Blue, Color::Red]
    } else if g == 202 {
        vec![Color::Blue]
    } else if g == 203 {
        vec![Color::Cyan]
    } else if g == 204 {
        vec![Color::Yellow]
    } else if g == 205 {
        vec![Color::Green, Color::Red]
    } else if g == 206 {
        vec![Color::Red, Color::Green]
    } else if g == 207 {
        vec![Color::AnsiValue(15), Color::White]
    } else if g == 208 {
        vec![Color::Black, Color::Blue, Color::Cyan]
    } else if g == 209 {
        vec![Color::Red]
    } else if g == 210 {
        vec![Color::Red, Color::White]
    } else if g == 211 {
        vec![Color::Red]
    } else if g == 212 {
        vec![Color::Red, Color::White]
    } else if g == 213 {
        vec![Color::Black, Color::DarkGrey]
    } else if g == 214 {
        vec![Color::Red, Color::Green, Color::Blue]
    } else if g == 215 {
        vec![Color::Red, Color::DarkGrey]
    } else if g == 216 {
        vec![Color::Red, Color::Green, Color::Yellow, Color::Blue, Color::Magenta]
    } else if g == 217 {
        vec![Color::Green]
    } else if g == 218 {
        vec![Color::Blue]
    } else if g == 219 {
        vec![Color::Blue, Color::White]
    } else if g == 220 {
        vec![Color::White]
    } else if g == 221 {
        vec![Color::Blue]
    } else if g == 222 {
        vec![Color::Green, Color::Red, Color::White]
    } else {
        vec![Color::Yellow, Color::White, Color::Blue, Color::Yellow]
    }
}

/// The colours of the groups 224 to 255.
pub open spec fn color_block_7(g: int) -> Seq<Color> {
    if g == 224 {
        seq![Color::Green]
    } else if g == 225 {
        seq![Color::Yellow, Color::Green, Color::Red, Color::White]
    } else if g == 226 {
        seq![Color::Magenta, Color::Blue]
    } else if g == 227 {
        seq![Color::Blue, Color::Red]
    } else if g == 228 {
        seq![Color::Green, Color::Red]
    } else if g == 229 {
        seq![Color::Blue, Color::Cyan]
    } else if g == 230 {
        seq![Color::Cyan]
    } else if g == 231 {
        seq![Color::Blue]
    } else if g == 232 {
        seq![Color::DarkYellow, Color::Cyan, Color::Red]
    } else if g == 233 {
        seq![Color::Blue, Color::Cyan]
    } else if g == 234 {
        seq![Color::Blue, Color::Black, Color::White]
    } else if g == 235 {
        seq![Color::Blue, Color::Black]
    } else if g == 236 {
        seq![Color::Blue, Color::DarkBlue]
    } else if g == 237 {
        seq![Color::Cyan]
    } else if g == 238 {
        seq![Color::Yellow, Color::DarkGrey]
    } else if g == 239 {
        seq![Color::Cyan]
    } else if g == 240 {
        seq![Color::Red, Color::White]
    } else if g == 241 {
        seq![Color::Blue, Color::White]
    } else if g == 242 {
        seq![Color::Blue, Color::DarkGrey, Color::Cyan, Color::DarkGrey]
    } else if g == 243 {
        seq![Color::Red]
    } else if g == 244 {
        seq![Color::Red]
    } else if g == 245 {
        seq![Color::Green, Color::White]
    } else if g == 246 {
        seq![Color::White, Color::Blue]
    } else if g == 247 {
        seq![Color::Cyan, Color::Black]
    } else if g == 248 {
        seq![Color::Blue, Color::White]
    } else if g == 249 {
        seq![Color::Green]
    } else if g == 250 {
        seq![Color::White, Color::Red]
    } else if g == 251 {
        seq![Color::Blue, Color::Cyan]
    } else if g == 252 {
        seq![Color::Blue, Color::White]
    } else if g == 253 {
        seq![Color::Blue, Color::Green]
    } else if g == 254 {
        seq![Color::Blue]
    } else {
        seq![Color::White, Color::Blue, Color::Black]
    }
}

fn color_block_at_7(g: usize) -> (colors: Vec<Color>)
    requires
        224 <= g < 256,
    ensures
        colors@ == color_block_7(g as int),
{
    if g == 224 {
        vec![Color::Green]
    } else if g == 225 {
        vec![Color::Yellow, Color::Green, Color::Red, Color::White]
    } else if g == 226 {
        vec![Color::Magenta, Color::Blue]
    } else if g == 227 {
        vec![Color::Blue, Color::Red]
    } else if g == 228 {
        vec![Color::Green, Color::Red]
    } else if g == 229 {
        vec![Color::Blue, Color::Cyan]
    } else if g == 230 {
        vec![Color::Cyan]
    } else if g == 231 {
        vec![Color::Blue]
    } else if g == 232 {
        vec![Color::DarkYellow, Color::Cyan, Color::Red]
    } else if g == 233 {
        vec![Color::Blue, Color::Cyan]
    } else if g == 234 {
        vec![Color::Blue, Color::Black, Color::White]
    } else if g == 235 {
        vec![Color::Blue, Color::Black]
    } else if g == 236 {
        vec![Color::Blue, Color::DarkBlue]
    } else if g == 237 {
        vec![Color::Cyan]
    } else if g == 238 {
        vec![Color::Yellow, Color::DarkGrey]
    } else if g == 239 {
        vec![Color::Cyan]
    } else if g == 240 {
        vec![Color::Red, Color::White]
    } else if g == 241 {
        vec![Color::Blue, Color::White]
    } else if g == 242 {
        vec![Color::Blue, Color::DarkGrey, Color::Cyan, Color::DarkGrey]
    } else if g == 243 {
        vec![Color::Red]
    } else if g == 244 {
        vec![Color::Red]
    } else if g == 245 {
        vec![Color::Green, Color::White]
    } else if g == 246 {
        vec![Color::White, Color::Blue]
    } else if g == 247 {
        vec![Color::Cyan, Color::Black]
    } else if g == 248 {
        vec![Color::Blue, Color::White]
    } else if g == 249 {
        vec![Color::Green]
    } else if g == 250 {
        vec![Color::White, Color::Red]
    } else if g == 251 {
        vec![Color::Blue, Color::Cyan]
    } else if g == 252 {
        vec![Color::Blue, Color::White]
    } else if g == 253 {
        vec![Color::Blue, Color::Green]
    } else if g == 254 {
        vec![Color::Blue]
    } else {
        vec![Color::White, Color::Blue, Color::Black]
    }
}

/// The colours of the groups 256 to 287.
pub open spec fn color_block_8(g: int) -> Seq<Color> {
    if g == 256 {
        seq![Color::Green, Color::Red]
    } else if g == 257 {
        seq![Color::Yellow, Color::White]
    } else if g == 258 {
        seq![Color::Blue, Color::Green, Color::Yellow]
    } else if g == 259 {
        seq![Color::Blue, Color::Green, Color::Yellow]
    } else if g == 260 {
        seq![Color::Blue, Color::Cyan]
    } else if g == 261 {
        seq![Color::DarkYellow, Color::Black]
    } else if g == 262 {
        seq![Color::DarkRed, Color::Red]
    } else if g == 263 {
        seq![Color::Blue, Color::White]
    } else if g == 264 {
        seq![Color::DarkRed]
    } else if g == 265 {
        seq![Color::DarkRed, Color::Magenta, Color::White]
    } else if g == 266 {
        seq![Color::DarkRed, Color::White]
    } else if g == 267 {
        seq![Color::Green, Color::White]
    } else if g == 268 {
        seq![Color::Blue, Color::DarkRed]
    } else if g == 269 {
        seq![Color::DarkRed, Color::Blue]
    } else if g == 270 {
        seq![Color::DarkRed, Color::White]
    } else if g == 271 {
        seq![Color::Magenta]
    } else if g == 272 {
        seq![Color::Blue]
    } else if g == 273 {
        seq![Color::Cyan, Color::Yellow]
    } else if g == 274 {
        seq![Color::Red, Color::White]
    } else if g == 275 {
        seq![Color::Black, Color::Red, Color::White]
    } else if g == 276 {
        seq![Color::AnsiValue(225), Color::AnsiValue(206), Color::AnsiValue(52)]
    } else if g == 277 {
        seq![Color::White]
    } else if g == 278 {
        seq![Color::Yellow]
    } else if g == 279 {
        seq![Color::Yellow]
    } else if g == 280 {
        seq![Color::Yellow, Color::DarkYellow]
    } else if g == 281 {
        seq![Color::DarkGrey, Color::Blue]
    } else if g == 282 {
        seq![Color::AnsiValue(11), Color::AnsiValue(8), Color::AnsiValue(15), Color::Red, Color::White]
    } else if g == 283 {
        seq![Color::Green, Color::Black]
    } else if g == 284 {
        seq![Color::Red, Color::White, Color::Yellow]
    } else if g == 285 {
        seq![Color::Cyan, Color::White]
    } else if g == 286 {
        seq![Color::Blue, Color::Blue, Color::Blue, Color::Blue]
    } else {
        seq![Color::Blue, Color::Blue, Color::Blue, Color::Blue]
    }
}

fn color_block_at_8(g: usize) -> (colors: Vec<Color>)
    requires
        256 <= g < 288,
    ensures
        colors@ == color_block_8(g as int),
{
    if g == 256 {
        vec![Color::Green, Color::Red]
    } else if g == 257 {
        vec![Color::Yellow, Color::White]
    } else if g == 258 {
        vec![Color::Blue, Color::Green, Color::Yellow]
    } else if g == 259 {
        vec![Color::Blue, Color::Green, Color::Yellow]
    } else if g == 260 {
        vec![Color::Blue, Color::Cyan]
    } else if g == 261 {
        vec![Color::DarkYellow, Color::Black]
    } else if g == 262 {
        vec![Color::DarkRed, Color::Red]
    } else if g == 263 {
        vec![Color::Blue, Color::White]
    } else if g == 264 {
        vec![Color::DarkRed]
    } else if g == 265 {
        vec![Color::DarkRed, Color::Magenta, Color::White]
    } else if g == 266 {
        vec![Color::DarkRed, Color::White]
    } else if g == 267 {
        vec![Color::Green, Color::White]
    } else if g == 268 {
        vec![Color::Blue, Color::DarkRed]
    } else if g == 269 {
        vec![Color::DarkRed, Color::Blue]
    } else if g == 270 {
        vec![Color::DarkRed, Color::White]
    } else if g == 271 {
        vec![Color::Magenta]
    } else if g == 272 {
        vec![Color::Blue]
    } else if g == 273 {
        vec![Color::Cyan, Color::Yellow]
    } else if g == 274 {
        vec![Color::Red, Color::White]
    } else if g == 275 {
        vec![Color::Black, Color::Red, Color::White]
    } else if g == 276 {
        vec![Color::AnsiValue(225), Color::AnsiValue(206), Color::AnsiValue(52)]
    } else if g == 277 {
        vec![Color::White]
    } else if g == 278 {
        vec![Color::Yellow]
    } else if g == 279 {
        vec![Color::Yellow]
    } else if g == 280 {
        vec![Color::Yellow, Color::DarkYellow]
    } else if g == 281 {
        vec![Color::DarkGrey, Color::Blue]
    } else if g == 282 {
        vec![Color::AnsiValue(11), Color::AnsiValue(8), Color::AnsiValue(15), Color::Red, Color::White]
    } else if g == 283 {
        vec![Color::Green, Color::Black]
    } else if g == 284 {
        vec![Color::Red, Color::White, Color::Yellow]
    } else if g == 285 {
        vec![Color::Cyan, Color::White]
    } else if g == 286 {
        vec![Color::Blue, Color::Blue, Color::Blue, Color::Blue]
    } else {
        vec![Color::Blue, Color::Blue, Color::Blue, Color::Blue]
    }
}

/// The colours of the groups 288 to 300.
pub open spec fn color_block_9(g: int) -> Seq<Color> {
    if g == 288 {
        seq![Color::Blue, Color::Blue, Color::Blue, Color::Blue]
    } else if g == 289 {
        seq![Color::Cyan, Color::Cyan, Color::Cyan, Color::Cyan]
    } else if g == 290 {
        seq![Color::Red, Color::Green, Color::Blue, Color::Yellow]
    } else if g == 291 {
        seq![Color::Cyan, Color::Blue, Color::Yellow, Color::Green, Color::Red, Color::Black]
    } else if g == 292 {
        seq![Color::Yellow, Color::Green, Color::Red]
    } else if g == 293 {
        seq![Color::Red, Color::Red, Color::Black, Color::Black, Color::Blue, Color::Yellow]
    } else if g == 294 {
        seq![Color::AnsiValue(50), Color::AnsiValue(14), Color::AnsiValue(50), Color::AnsiValue(93), Color::AnsiValue(16), Color::AnsiValue(15)]
    } else if g == 295 {
        seq![Color::AnsiValue(15), Color::AnsiValue(14), Color::AnsiValue(16), Color::AnsiValue(24)]
    } else if g == 296 {
        seq![Color::Cyan, Color::Cyan]
    } else if g == 297 {
        seq![Color::AnsiValue(25), Color::White]
    } else if g == 298 {
        seq![Color::AnsiValue(93), Color::AnsiValue(92)]
    } else if g == 299 {
        seq![Color::Blue]
    } else {
        seq![Color::Blue]
    }
}

fn color_block_at_9(g: usize) -> (colors: Vec<Color>)
    requires
        288 <= g < 301,
    ensures
        colors@ == color_block_9(g as int),
{
    if g == 288 {
        vec![Color::Blue, Color::Blue, Color::Blue, Color::Blue]
    } else if g == 289 {
        vec![Color::Cyan, Color::Cyan, Color::Cyan, Color::Cyan]
    } else if g == 290 {
        vec![Color::Red, Color::Green, Color::Blue, Color::Yellow]
    } else if g == 291 {
        vec![Color::Cyan, Color::Blue, Color::Yellow, Color::Green, Color::Red, Color::Black]
    } else if g == 292 {
        vec![Color::Yellow, Color::Green, Color::Red]
    } else if g == 293 {
        vec![Color::Red, Color::Red, Color::Black, Color::Black, Color::Blue, Color::Yellow]
    } else if g == 294 {
        vec![Color::AnsiValue(50), Color::AnsiValue(14), Color::AnsiValue(50), Color::AnsiValue(93), Color::AnsiValue(16), Color::AnsiValue(15)]
    } else if g == 295 {
        vec![Color::AnsiValue(15), Color::AnsiValue(14), Color::AnsiValue(16), Color::AnsiValue(24)]
    } else if g == 296 {
        vec![Color::Cyan, Color::Cyan]
    } else if g == 297 {
        vec![Color::AnsiValue(25), Color::White]
    } else if g == 298 {
        vec![Color::AnsiValue(93), Color::AnsiValue(92)]
    } else if g == 299 {
        vec![Color::Blue]
    } else {
        vec![Color::Blue]
    }
}

/// The colours of group `g`, in the order of their placeholders.
pub open spec fn group_colors(g: int) -> Seq<Color> {
    if g < 32 {
        color_block_0(g)
    } else if g < 64 {
        color_block_1(g)
    } else if g < 96 {
        color_block_2(g)
    } else if g < 128 {
        color_block_3(g)
    } else if g < 160 {
        color_block_4(g)
    } else if g < 192 {
        color_block_5(g)
    } else if g < 224 {
        color_block_6(g)
    } else if g < 256 {
        color_block_7(g)
    } else if g < 288 {
        color_block_8(g)
    } else {
        color_block_9(g)
    }
}

/// The colours of group `g`, in the order of their placeholders.
pub fn colors_of_group(g: usize) -> (colors: Vec<Color>)
    requires
        g < GROUP_COUNT,
    ensures
        colors@ == group_colors(g as int),
{
    if g < 32 {
        color_block_at_0(g)
    } else if g < 64 {
        color_block_at_1(g)
    } else if g < 96 {
        color_block_at_2(g)
    } else if g < 128 {
        color_block_at_3(g)
    } else if g < 160 {
        color_block_at_4(g)
    } else if g < 192 {
        color_block_at_5(g)
    } else if g < 224 {
        color_block_at_6(g)
    } else if g < 256 {
        color_block_at_7(g)
    } else if g < 288 {
        color_block_at_8(g)
    } else {
        color_block_at_9(g)
    }
}

} // verus!
