//! Wi-Fi Protected Setup: the information that the vendor element of type 4 carries, and
//! the device categories of its primary device type.

use vstd::prelude::*;

verus! {

/// The category of a device, with its subcategory.
#[derive(Copy, Clone, Debug, PartialEq, Eq, Structural)]
pub enum Category {
    Computer(Computers),
    InputDevice(InputDevices),
    PrintersScannersFaxCopier(PrintersEtAl),
    Camera(Cameras),
    Storage(Storage),
    NetworkInfrastructure(NetworkInfrastructure),
    Displays(Displays),
    MultimediaDevices(MultimediaDevices),
    GamingDevices(GamingDevices),
    Telephone(Telephone),
    AudioDevices(AudioDevices),
    DockingDevices(DockingDevices),
    Others,
}

/// The subcategories of computers, in the order of their
/// codes, which start at 1.
#[derive(Copy, Clone, Debug, PartialEq, Eq, Structural)]
pub enum Computers {
    PC,
    Server,
    MediaCenter,
    UltraMobilePC,
    Notebook,
    Desktop,
    MID,
    Netbook,
    Tablet,
    Ultrabook,
}

/// The subcategories of input devices, in the order of their
/// codes, which start at 1.
#[derive(Copy, Clone, Debug, PartialEq, Eq, Structural)]
pub enum InputDevices {
    Keyboard,
    Mouse,
    Joystick,
    Trackball,
    GamingController,
    Remote,
    Touchscreen,
    BiometricReader,
    BarcodeReader,
}

/// The subcategories of printers, scanners, fax machines and copiers, in the order of their
/// codes, which start at 1.
#[derive(Copy, Clone, Debug, PartialEq, Eq, Structural)]
pub enum PrintersEtAl {
    Printer,
    Scanner,
    Fax,
    Copier,
    AllInOne,
}

/// The subcategories of cameras, in the order of their
/// codes, which start at 1.
#[derive(Copy, Clone, Debug, PartialEq, Eq, Structural)]
pub enum Cameras {
    DigitalCamera,
    VideoCamera,
    Webcam,
    SecurityCamera,
}

/// The subcategories of storage devices, in the order of their
/// codes, which start at 1.
#[derive(Copy, Clone, Debug, PartialEq, Eq, Structural)]
pub enum Storage {
    NAS,
}

/// The subcategories of network infrastructure, in the order of their
/// codes, which start at 1.
#[derive(Copy, Clone, Debug, PartialEq, Eq, Structural)]
pub enum NetworkInfrastructure {
    AP,
    Router,
    Switch,
    Gateway,
    Bridge,
}

/// The subcategories of displays, in the order of their
/// codes, which start at 1.
#[derive(Copy, Clone, Debug, PartialEq, Eq, Structural)]
pub enum Displays {
    Television,
    ElectronicPictureFrame,
    Projector,
    Monitor,
}

/// The subcategories of multimedia devices, in the order of their
/// codes, which start at 1.
#[derive(Copy, Clone, Debug, PartialEq, Eq, Structural)]
pub enum MultimediaDevices {
    DAR,
    PVR,
    MCX,
    SetTopBox,
    MediaServer,
    ProtableVideoPlayer,
}

/// The subcategories of gaming devices, in the order of their
/// codes, which start at 1.
#[derive(Copy, Clone, Debug, PartialEq, Eq, Structural)]
pub enum GamingDevices {
    Xbox,
    Xbox360,
    Playstation,
    GameConsole,
    PortableGamingDevice,
}

/// The subcategories of telephones, in the order of their
/// codes, which start at 1.
#[derive(Copy, Clone, Debug, PartialEq, Eq, Structural)]
pub enum Telephone {
    WindowsMobile,
    PhoneSingleMode,
    PhoneDualMode,
    SmartphoneSingleMode,
    SmartphoneDualMode,
}

/// The subcategories of audio devices, in the order of their
/// codes, which start at 1.
#[derive(Copy, Clone, Debug, PartialEq, Eq, Structural)]
pub enum AudioDevices {
    AutioTunerReceiver,
    Speakers,
    PortableMusicPlayer,
    Headset,
    Headphones,
    Microphone,
    HomeTheaterSystems,
}

/// The subcategories of docking devices, in the order of their
/// codes, which start at 1.
#[derive(Copy, Clone, Debug, PartialEq, Eq, Structural)]
pub enum DockingDevices {
    ComputerDockingStation,
    MediaKiosk,
}

impl Computers {
    /// The subcategory with code `code`, if there is one.
    pub open spec fn of(code: u16) -> Option<Computers> {
        match code {
            1 => Some(Computers::PC),
            2 => Some(Computers::Server),
            3 => Some(Computers::MediaCenter),
            4 => Some(Computers::UltraMobilePC),
            5 => Some(Computers::Notebook),
            6 => Some(Computers::Desktop),
            7 => Some(Computers::MID),
            8 => Some(Computers::Netbook),
            9 => Some(Computers::Tablet),
            10 => Some(Computers::Ultrabook),
            _ => None,
        }
    }

    /// The name of this subcategory in words.
    pub open spec fn label_spec(self) -> &'static str {
        match self {
            Computers::PC => "PC",
            Computers::Server => "Server",
            Computers::MediaCenter => "Media Center",
            Computers::UltraMobilePC => "Ultra Mobile PC",
            Computers::Notebook => "Notebook",
            Computers::Desktop => "Desktop",
            Computers::MID => "Mobile Internet Device",
            Computers::Netbook => "Netbook",
            Computers::Tablet => "Tablet",
            Computers::Ultrabook => "Ultrabook",
        }
    }

    /// The subcategory with code `code`, if there is one.
    pub fn from_code(code: u16) -> (r: Option<Computers>)
        ensures
            r == Computers::of(code),
    {
        match code {
            1 => Some(Computers::PC),
            2 => Some(Computers::Server),
            3 => Some(Computers::MediaCenter),
            4 => Some(Computers::UltraMobilePC),
            5 => Some(Computers::Notebook),
            6 => Some(Computers::Desktop),
            7 => Some(Computers::MID),
            8 => Some(Computers::Netbook),
            9 => Some(Computers::Tablet),
            10 => Some(Computers::Ultrabook),
            _ => None,
        }
    }

    /// The name of this subcategory in words.
    pub fn label(&self) -> (s: &'static str)
        ensures
            s == self.label_spec(),
    {
        match self {
            Computers::PC => "PC",
            Computers::Server => "Server",
            Computers::MediaCenter => "Media Center",
            Computers::UltraMobilePC => "Ultra Mobile PC",
            Computers::Notebook => "Notebook",
            Computers::Desktop => "Desktop",
            Computers::MID => "Mobile Internet Device",
            Computers::Netbook => "Netbook",
            Computers::Tablet => "Tablet",
            Computers::Ultrabook => "Ultrabook",
        }
    }
}

impl InputDevices {
    /// The subcategory with code `code`, if there is one.
    pub open spec fn of(code: u16) -> Option<InputDevices> {
        match code {
            1 => Some(InputDevices::Keyboard),
            2 => Some(InputDevices::Mouse),
            3 => Some(InputDevices::Joystick),
            4 => Some(InputDevices::Trackball),
            5 => Some(InputDevices::GamingController),
            6 => Some(InputDevices::Remote),
            7 => Some(InputDevices::Touchscreen),
            8 => Some(InputDevices::BiometricReader),
            9 => Some(InputDevices::BarcodeReader),
            _ => None,
        }
    }

    /// The name of this subcategory in words.
    pub open spec fn label_spec(self) -> &'static str {
        match self {
            InputDevices::Keyboard => "Keyboard",
            InputDevices::Mouse => "Mouse",
            InputDevices::Joystick => "Joystick",
            InputDevices::Trackball => "Trackball",
            InputDevices::GamingController => "Gaming Controller",
            InputDevices::Remote => "Input Remote",
            InputDevices::Touchscreen => "Touchscreen",
            InputDevices::BiometricReader => "Biometric Reader",
            InputDevices::BarcodeReader => "Barcode Reader",
        }
    }

    /// The subcategory with code `code`, if there is one.
    pub fn from_code(code: u16) -> (r: Option<InputDevices>)
        ensures
            r == InputDevices::of(code),
    {
        match code {
            1 => Some(InputDevices::Keyboard),
            2 => Some(InputDevices::Mouse),
            3 => Some(InputDevices::Joystick),
            4 => Some(InputDevices::Trackball),
            5 => Some(InputDevices::GamingController),
            6 => Some(InputDevices::Remote),
            7 => Some(InputDevices::Touchscreen),
            8 => Some(InputDevices::BiometricReader),
            9 => Some(InputDevices::BarcodeReader),
            _ => None,
        }
    }

    /// The name of this subcategory in words.
    pub fn label(&self) -> (s: &'static str)
        ensures
            s == self.label_spec(),
    {
        match self {
            InputDevices::Keyboard => "Keyboard",
            InputDevices::Mouse => "Mouse",
            InputDevices::Joystick => "Joystick",
            InputDevices::Trackball => "Trackball",
            InputDevices::GamingController => "Gaming Controller",
            InputDevices::Remote => "Input Remote",
            InputDevices::Touchscreen => "Touchscreen",
            InputDevices::BiometricReader => "Biometric Reader",
            InputDevices::BarcodeReader => "Barcode Reader",
        }
    }
}

impl PrintersEtAl {
    /// The subcategory with code `code`, if there is one.
    pub open spec fn of(code: u16) -> Option<PrintersEtAl> {
        match code {
            1 => Some(PrintersEtAl::Printer),
            2 => Some(PrintersEtAl::Scanner),
            3 => Some(PrintersEtAl::Fax),
            4 => Some(PrintersEtAl::Copier),
            5 => Some(PrintersEtAl::AllInOne),
            _ => None,
        }
    }

    /// The name of this subcategory in words.
    pub open spec fn label_spec(self) -> &'static str {
        match self {
            PrintersEtAl::Printer => "Printer",
            PrintersEtAl::Scanner => "Scanner",
            PrintersEtAl::Fax => "Fax Machine",
            PrintersEtAl::Copier => "Copier",
            PrintersEtAl::AllInOne => "All-In-One Printer",
        }
    }

    /// The subcategory with code `code`, if there is one.
    pub fn from_code(code: u16) -> (r: Option<PrintersEtAl>)
        ensures
            r == PrintersEtAl::of(code),
    {
        match code {
            1 => Some(PrintersEtAl::Printer),
            2 => Some(PrintersEtAl::Scanner),
            3 => Some(PrintersEtAl::Fax),
            4 => Some(PrintersEtAl::Copier),
            5 => Some(PrintersEtAl::AllInOne),
            _ => None,
        }
    }

    /// The name of this subcategory in words.
    pub fn label(&self) -> (s: &'static str)
        ensures
            s == self.label_spec(),
    {
        match self {
            PrintersEtAl::Printer => "Printer",
            PrintersEtAl::Scanner => "Scanner",
            PrintersEtAl::Fax => "Fax Machine",
            PrintersEtAl::Copier => "Copier",
            PrintersEtAl::AllInOne => "All-In-One Printer",
        }
    }
}

impl Cameras {
    /// The subcategory with code `code`, if there is one.
    pub open spec fn of(code: u16) -> Option<Cameras> {
        match code {
            1 => Some(Cameras::DigitalCamera),
            2 => Some(Cameras::VideoCamera),
            3 => Some(Cameras::Webcam),
            4 => Some(Cameras::SecurityCamera),
            _ => None,
        }
    }

    /// The name of this subcategory in words.
    pub open spec fn label_spec(self) -> &'static str {
        match self {
            Cameras::DigitalCamera => "Digital Camera",
            Cameras::VideoCamera => "Video Camera",
            Cameras::Webcam => "Webcam",
            Cameras::SecurityCamera => "Security Camera",
        }
    }

    /// The subcategory with code `code`, if there is one.
    pub fn from_code(code: u16) -> (r: Option<Cameras>)
        ensures
            r == Cameras::of(code),
    {
        match code {
            1 => Some(Cameras::DigitalCamera),
            2 => Some(Cameras::VideoCamera),
            3 => Some(Cameras::Webcam),
            4 => Some(Cameras::SecurityCamera),
            _ => None,
        }
    }

    /// The name of this subcategory in words.
    pub fn label(&self) -> (s: &'static str)
        ensures
            s == self.label_spec(),
    {
        match self {
            Cameras::DigitalCamera => "Digital Camera",
            Cameras::VideoCamera => "Video Camera",
            Cameras::Webcam => "Webcam",
            Cameras::SecurityCamera => "Security Camera",
        }
    }
}

impl Storage {
    /// The subcategory with code `code`, if there is one.
    pub open spec fn of(code: u16) -> Option<Storage> {
        match code {
            1 => Some(Storage::NAS),
            _ => None,
        }
    }

    /// The name of this subcategory in words.
    pub open spec fn label_spec(self) -> &'static str {
        match self {
            Storage::NAS => "NAS",
        }
    }

    /// The subcategory with code `code`, if there is one.
    pub fn from_code(code: u16) -> (r: Option<Storage>)
        ensures
            r == Storage::of(code),
    {
        match code {
            1 => Some(Storage::NAS),
            _ => None,
        }
    }

    /// The name of this subcategory in words.
    pub fn label(&self) -> (s: &'static str)
        ensures
            s == self.label_spec(),
    {
        match self {
            Storage::NAS => "NAS",
        }
    }
}

impl NetworkInfrastructure {
    /// The subcategory with code `code`, if there is one.
    pub open spec fn of(code: u16) -> Option<NetworkInfrastructure> {
        match code {
            1 => Some(NetworkInfrastructure::AP),
            2 => Some(NetworkInfrastructure::Router),
            3 => Some(NetworkInfrastructure::Switch),
            4 => Some(NetworkInfrastructure::Gateway),
            5 => Some(NetworkInfrastructure::Bridge),
            _ => None,
        }
    }

    /// The name of this subcategory in words.
    pub open spec fn label_spec(self) -> &'static str {
        match self {
            NetworkInfrastructure::AP => "Access Point",
            NetworkInfrastructure::Router => "Router",
            NetworkInfrastructure::Switch => "Network Switch",
            NetworkInfrastructure::Gateway => "Network Gateway",
            NetworkInfrastructure::Bridge => "Network Bridge",
        }
    }

    /// The subcategory with code `code`, if there is one.
    pub fn from_code(code: u16) -> (r: Option<NetworkInfrastructure>)
        ensures
            r == NetworkInfrastructure::of(code),
    {
        match code {
            1 => Some(NetworkInfrastructure::AP),
            2 => Some(NetworkInfrastructure::Router),
            3 => Some(NetworkInfrastructure::Switch),
            4 => Some(NetworkInfrastructure::Gateway),
            5 => Some(NetworkInfrastructure::Bridge),
            _ => None,
        }
    }

    /// The name of this subcategory in words.
    pub fn label(&self) -> (s: &'static str)
        ensures
            s == self.label_spec(),
    {
        match self {
            NetworkInfrastructure::AP => "Access Point",
            NetworkInfrastructure::Router => "Router",
            NetworkInfrastructure::Switch => "Network Switch",
            NetworkInfrastructure::Gateway => "Network Gateway",
            NetworkInfrastructure::Bridge => "Network Bridge",
        }
    }
}

impl Displays {
    /// The subcategory with code `code`, if there is one.
    pub open spec fn of(code: u16) -> Option<Displays> {
        match code {
            1 => Some(Displays::Television),
            2 => Some(Displays::ElectronicPictureFrame),
            3 => Some(Displays::Projector),
            4 => Some(Displays::Monitor),
            _ => None,
        }
    }

    /// The name of this subcategory in words.
    pub open spec fn label_spec(self) -> &'static str {
        match self {
            Displays::Television => "Television",
            Displays::ElectronicPictureFrame => "Electronic Picture Frame",
            Displays::Projector => "Projector",
            Displays::Monitor => "Monitor",
        }
    }

    /// The subcategory with code `code`, if there is one.
    pub fn from_code(code: u16) -> (r: Option<Displays>)
        ensures
            r == Displays::of(code),
    {
        match code {
            1 => Some(Displays::Television),
            2 => Some(Displays::ElectronicPictureFrame),
            3 => Some(Displays::Projector),
            4 => Some(Displays::Monitor),
            _ => None,
        }
    }

    /// The name of this subcategory in words.
    pub fn label(&self) -> (s: &'static str)
        ensures
            s == self.label_spec(),
    {
        match self {
            Displays::Television => "Television",
            Displays::ElectronicPictureFrame => "Electronic Picture Frame",
            Displays::Projector => "Projector",
            Displays::Monitor => "Monitor",
        }
    }
}

impl MultimediaDevices {
    /// The subcategory with code `code`, if there is one.
    pub open spec fn of(code: u16) -> Option<MultimediaDevices> {
        match code {
            1 => Some(MultimediaDevices::DAR),
            2 => Some(MultimediaDevices::PVR),
            3 => Some(MultimediaDevices::MCX),
            4 => Some(MultimediaDevices::SetTopBox),
            5 => Some(MultimediaDevices::MediaServer),
            6 => Some(MultimediaDevices::ProtableVideoPlayer),
            _ => None,
        }
    }

    /// The name of this subcategory in words.
    pub open spec fn label_spec(self) -> &'static str {
        match self {
            MultimediaDevices::DAR => "Digital Audio Recorder",
            MultimediaDevices::PVR => "Personal Video Recorder",
            MultimediaDevices::MCX => "Media Center Extender",
            MultimediaDevices::SetTopBox => "Set-Top Box",
            MultimediaDevices::MediaServer => "Media Server",
            MultimediaDevices::ProtableVideoPlayer => "Portable Video Player",
        }
    }

    /// The subcategory with code `code`, if there is one.
    pub fn from_code(code: u16) -> (r: Option<MultimediaDevices>)
        ensures
            r == MultimediaDevices::of(code),
    {
        match code {
            1 => Some(MultimediaDevices::DAR),
            2 => Some(MultimediaDevices::PVR),
            3 => Some(MultimediaDevices::MCX),
            4 => Some(MultimediaDevices::SetTopBox),
            5 => Some(MultimediaDevices::MediaServer),
            6 => Some(MultimediaDevices::ProtableVideoPlayer),
            _ => None,
        }
    }

    /// The name of this subcategory in words.
    pub fn label(&self) -> (s: &'static str)
        ensures
            s == self.label_spec(),
    {
        match self {
            MultimediaDevices::DAR => "Digital Audio Recorder",
            MultimediaDevices::PVR => "Personal Video Recorder",
            MultimediaDevices::MCX => "Media Center Extender",
            MultimediaDevices::SetTopBox => "Set-Top Box",
            MultimediaDevices::MediaServer => "Media Server",
            MultimediaDevices::ProtableVideoPlayer => "Portable Video Player",
        }
    }
}

impl GamingDevices {
    /// The subcategory with code `code`, if there is one.
    pub open spec fn of(code: u16) -> Option<GamingDevices> {
        match code {
            1 => Some(GamingDevices::Xbox),
            2 => Some(GamingDevices::Xbox360),
            3 => Some(GamingDevices::Playstation),
            4 => Some(GamingDevices::GameConsole),
            5 => Some(GamingDevices::PortableGamingDevice),
            _ => None,
        }
    }

    /// The name of this subcategory in words.
    pub open spec fn label_spec(self) -> &'static str {
        match self {
            GamingDevices::Xbox => "Xbox",
            GamingDevices::Xbox360 => "Xbox 360",
            GamingDevices::Playstation => "Playstation",
            GamingDevices::GameConsole => "Game Console",
            GamingDevices::PortableGamingDevice => "Portable Gaming Device",
        }
    }

    /// The subcategory with code `code`, if there is one.
    pub fn from_code(code: u16) -> (r: Option<GamingDevices>)
        ensures
            r == GamingDevices::of(code),
    {
        match code {
            1 => Some(GamingDevices::Xbox),
            2 => Some(GamingDevices::Xbox360),
            3 => Some(GamingDevices::Playstation),
            4 => Some(GamingDevices::GameConsole),
            5 => Some(GamingDevices::PortableGamingDevice),
            _ => None,
        }
    }

    /// The name of this subcategory in words.
    pub fn label(&self) -> (s: &'static str)
        ensures
            s == self.label_spec(),
    {
        match self {
            GamingDevices::Xbox => "Xbox",
            GamingDevices::Xbox360 => "Xbox 360",
            GamingDevices::Playstation => "Playstation",
            GamingDevices::GameConsole => "Game Console",
            GamingDevices::PortableGamingDevice => "Portable Gaming Device",
        }
    }
}

impl Telephone {
    /// The subcategory with code `code`, if there is one.
    pub open spec fn of(code: u16) -> Option<Telephone> {
        match code {
            1 => Some(Telephone::WindowsMobile),
            2 => Some(Telephone::PhoneSingleMode),
            3 => Some(Telephone::PhoneDualMode),
            4 => Some(Telephone::SmartphoneSingleMode),
            5 => Some(Telephone::SmartphoneDualMode),
            _ => None,
        }
    }

    /// The name of this subcategory in words.
    pub open spec fn label_spec(self) -> &'static str {
        match self {
            Telephone::WindowsMobile => "Windows Mobile",
            Telephone::PhoneSingleMode => "Phone Single Mode",
            Telephone::PhoneDualMode => "Phone Dual Mode",
            Telephone::SmartphoneSingleMode => "Smartphone Single Mode",
            Telephone::SmartphoneDualMode => "Smartphone Dual Mode",
        }
    }

    /// The subcategory with code `code`, if there is one.
    pub fn from_code(code: u16) -> (r: Option<Telephone>)
        ensures
            r == Telephone::of(code),
    {
        match code {
            1 => Some(Telephone::WindowsMobile),
            2 => Some(Telephone::PhoneSingleMode),
            3 => Some(Telephone::PhoneDualMode),
            4 => Some(Telephone::SmartphoneSingleMode),
            5 => Some(Telephone::SmartphoneDualMode),
            _ => None,
        }
    }

    /// The name of this subcategory in words.
    pub fn label(&self) -> (s: &'static str)
        ensures
            s == self.label_spec(),
    {
        match self {
            Telephone::WindowsMobile => "Windows Mobile",
            Telephone::PhoneSingleMode => "Phone Single Mode",
            Telephone::PhoneDualMode => "Phone Dual Mode",
            Telephone::SmartphoneSingleMode => "Smartphone Single Mode",
            Telephone::SmartphoneDualMode => "Smartphone Dual Mode",
        }
    }
}

impl AudioDevices {
    /// The subcategory with code `code`, if there is one.
    pub open spec fn of(code: u16) -> Option<AudioDevices> {
        match code {
            1 => Some(AudioDevices::AutioTunerReceiver),
            2 => Some(AudioDevices::Speakers),
            3 => Some(AudioDevices::PortableMusicPlayer),
            4 => Some(AudioDevices::Headset),
            5 => Some(AudioDevices::Headphones),
            6 => Some(AudioDevices::Microphone),
            7 => Some(AudioDevices::HomeTheaterSystems),
            _ => None,
        }
    }

    /// The name of this subcategory in words.
    pub open spec fn label_spec(self) -> &'static str {
        match self {
            AudioDevices::AutioTunerReceiver => "Audio Tuner Receiver",
            AudioDevices::Speakers => "Speakers",
            AudioDevices::PortableMusicPlayer => "Portable Music Player",
            AudioDevices::Headset => "Headset",
            AudioDevices::Headphones => "Headphones",
            AudioDevices::Microphone => "Microphone",
            AudioDevices::HomeTheaterSystems => "Home Theater Systems",
        }
    }

    /// The subcategory with code `code`, if there is one.
    pub fn from_code(code: u16) -> (r: Option<AudioDevices>)
        ensures
            r == AudioDevices::of(code),
    {
        match code {
            1 => Some(AudioDevices::AutioTunerReceiver),
            2 => Some(AudioDevices::Speakers),
            3 => Some(AudioDevices::PortableMusicPlayer),
            4 => Some(AudioDevices::Headset),
            5 => Some(AudioDevices::Headphones),
            6 => Some(AudioDevices::Microphone),
            7 => Some(AudioDevices::HomeTheaterSystems),
            _ => None,
        }
    }

    /// The name of this subcategory in words.
    pub fn label(&self) -> (s: &'static str)
        ensures
            s == self.label_spec(),
    {
        match self {
            AudioDevices::AutioTunerReceiver => "Audio Tuner Receiver",
            AudioDevices::Speakers => "Speakers",
            AudioDevices::PortableMusicPlayer => "Portable Music Player",
            AudioDevices::Headset => "Headset",
            AudioDevices::Headphones => "Headphones",
            AudioDevices::Microphone => "Microphone",
            AudioDevices::HomeTheaterSystems => "Home Theater Systems",
        }
    }
}

impl DockingDevices {
    /// The subcategory with code `code`, if there is one.
    pub open spec fn of(code: u16) -> Option<DockingDevices> {
        match code {
            1 => Some(DockingDevices::ComputerDockingStation),
            2 => Some(DockingDevices::MediaKiosk),
            _ => None,
        }
    }

    /// The name of this subcategory in words.
    pub open spec fn label_spec(self) -> &'static str {
        match self {
            DockingDevices::ComputerDockingStation => "Computer Docking Station",
            DockingDevices::MediaKiosk => "Media Kiosk",
        }
    }

    /// The subcategory with code `code`, if there is one.
    pub fn from_code(code: u16) -> (r: Option<DockingDevices>)
        ensures
            r == DockingDevices::of(code),
    {
        match code {
            1 => Some(DockingDevices::ComputerDockingStation),
            2 => Some(DockingDevices::MediaKiosk),
            _ => None,
        }
    }

    /// The name of this subcategory in words.
    pub fn label(&self) -> (s: &'static str)
        ensures
            s == self.label_spec(),
    {
        match self {
            DockingDevices::ComputerDockingStation => "Computer Docking Station",
            DockingDevices::MediaKiosk => "Media Kiosk",
        }
    }
}

/// The category that a category code and a subcategory code name. Storage has a single
/// subcategory, which every subcategory code names.
pub open spec fn category_of(value: u16, subvalue: u16) -> Option<Category> {
    match value {
        1 => match Computers::of(subvalue) {
            Some(s) => Some(Category::Computer(s)),
            None => None,
        },
        2 => match InputDevices::of(subvalue) {
            Some(s) => Some(Category::InputDevice(s)),
            None => None,
        },
        3 => match PrintersEtAl::of(subvalue) {
            Some(s) => Some(Category::PrintersScannersFaxCopier(s)),
            None => None,
        },
        4 => match Cameras::of(subvalue) {
            Some(s) => Some(Category::Camera(s)),
            None => None,
        },
        5 => Some(Category::Storage(Storage::NAS)),
        6 => match NetworkInfrastructure::of(subvalue) {
            Some(s) => Some(Category::NetworkInfrastructure(s)),
            None => None,
        },
        7 => match Displays::of(subvalue) {
            Some(s) => Some(Category::Displays(s)),
            None => None,
        },
        8 => match MultimediaDevices::of(subvalue) {
            Some(s) => Some(Category::MultimediaDevices(s)),
            None => None,
        },
        9 => match GamingDevices::of(subvalue) {
            Some(s) => Some(Category::GamingDevices(s)),
            None => None,
        },
        10 => match Telephone::of(subvalue) {
            Some(s) => Some(Category::Telephone(s)),
            None => None,
        },
        11 => match AudioDevices::of(subvalue) {
            Some(s) => Some(Category::AudioDevices(s)),
            None => None,
        },
        12 => match DockingDevices::of(subvalue) {
            Some(s) => Some(Category::DockingDevices(s)),
            None => None,
        },
        _ => None,
    }
}

impl Category {
    /// The name of this category in words: that of its subcategory.
    pub open spec fn label_spec(self) -> &'static str {
        match self {
            Category::Computer(sub) => sub.label_spec(),
            Category::InputDevice(sub) => sub.label_spec(),
            Category::PrintersScannersFaxCopier(sub) => sub.label_spec(),
            Category::Camera(sub) => sub.label_spec(),
            Category::Storage(sub) => sub.label_spec(),
            Category::NetworkInfrastructure(sub) => sub.label_spec(),
            Category::Displays(sub) => sub.label_spec(),
            Category::MultimediaDevices(sub) => sub.label_spec(),
            Category::GamingDevices(sub) => sub.label_spec(),
            Category::Telephone(sub) => sub.label_spec(),
            Category::AudioDevices(sub) => sub.label_spec(),
            Category::DockingDevices(sub) => sub.label_spec(),
            Category::Others => "Others",
        }
    }

    /// The name of this category in words: that of its subcategory.
    pub fn label(&self) -> (s: &'static str)
        ensures
            s == self.label_spec(),
    {
        match self {
            Category::Computer(sub) => sub.label(),
            Category::InputDevice(sub) => sub.label(),
            Category::PrintersScannersFaxCopier(sub) => sub.label(),
            Category::Camera(sub) => sub.label(),
            Category::Storage(sub) => sub.label(),
            Category::NetworkInfrastructure(sub) => sub.label(),
            Category::Displays(sub) => sub.label(),
            Category::MultimediaDevices(sub) => sub.label(),
            Category::GamingDevices(sub) => sub.label(),
            Category::Telephone(sub) => sub.label(),
            Category::AudioDevices(sub) => sub.label(),
            Category::DockingDevices(sub) => sub.label(),
            Category::Others => "Others",
        }
    }
}

/// The category that a category code and a subcategory code name.
pub fn category_from_codes(value: u16, subvalue: u16) -> (r: Option<Category>)
    ensures
        r == category_of(value, subvalue),
{
    match value {
        1 => match Computers::from_code(subvalue) {
            Some(s) => Some(Category::Computer(s)),
            None => None,
        },
        2 => match InputDevices::from_code(subvalue) {
            Some(s) => Some(Category::InputDevice(s)),
            None => None,
        },
        3 => match PrintersEtAl::from_code(subvalue) {
            Some(s) => Some(Category::PrintersScannersFaxCopier(s)),
            None => None,
        },
        4 => match Cameras::from_code(subvalue) {
            Some(s) => Some(Category::Camera(s)),
            None => None,
        },
        5 => Some(Category::Storage(Storage::NAS)),
        6 => match NetworkInfrastructure::from_code(subvalue) {
            Some(s) => Some(Category::NetworkInfrastructure(s)),
            None => None,
        },
        7 => match Displays::from_code(subvalue) {
            Some(s) => Some(Category::Displays(s)),
            None => None,
        },
        8 => match MultimediaDevices::from_code(subvalue) {
            Some(s) => Some(Category::MultimediaDevices(s)),
            None => None,
        },
        9 => match GamingDevices::from_code(subvalue) {
            Some(s) => Some(Category::GamingDevices(s)),
            None => None,
        },
        10 => match Telephone::from_code(subvalue) {
            Some(s) => Some(Category::Telephone(s)),
            None => None,
        },
        11 => match AudioDevices::from_code(subvalue) {
            Some(s) => Some(Category::AudioDevices(s)),
            None => None,
        },
        12 => match DockingDevices::from_code(subvalue) {
            Some(s) => Some(Category::DockingDevices(s)),
            None => None,
        },
        _ => None,
    }
}

/// The category that two bytes of category code and two bytes of subcategory code name,
/// each read as a big-endian number.
pub fn bytes_to_category(catbytes: &[u8], subbytes: &[u8]) -> (r: Option<Category>)
    ensures
        r == if catbytes@.len() == 2 && subbytes@.len() >= 2 {
            category_of(crate::wire::be_u16(catbytes@, 0), crate::wire::be_u16(subbytes@, 0))
        } else {
            None
        },
{
    if catbytes.len() != 2 || subbytes.len() < 2 {
        return None;
    }
    let value = crate::wire::read_be_u16(catbytes, 0);
    let subvalue = crate::wire::read_be_u16(subbytes, 0);
    category_from_codes(value, subvalue)
}

/// The number of pairs of codes in the table of device types: twelve categories of at
/// most ten subcategories.
pub const DEVICE_TYPE_PAIRS: u16 = 120;

/// Pair number `k` of the table of device types, by category and then by subcategory.
pub open spec fn code_pair(k: int) -> (u16, u16) {
    ((k / 10 + 1) as u16, (k % 10 + 1) as u16)
}

/// Whether a pair of codes names a category of the given name.
pub open spec fn names(pair: (u16, u16), label: Seq<char>) -> bool {
    category_of(pair.0, pair.1) matches Some(c) && c.label_spec()@ == label
}

/// The first pair of codes from pair `k` on that names a category of the given name.
pub open spec fn device_type_codes_from(label: Seq<char>, k: int) -> Option<(u16, u16)>
    decreases DEVICE_TYPE_PAIRS - k,
{
    if k < 0 || k >= DEVICE_TYPE_PAIRS {
        None
    } else if names(code_pair(k), label) {
        Some(code_pair(k))
    } else {
        device_type_codes_from(label, k + 1)
    }
}

/// The codes of the device type of the given name: the first pair of the table that
/// names it.
pub open spec fn device_type_codes(label: Seq<char>) -> Option<(u16, u16)> {
    device_type_codes_from(label, 0)
}

/// The codes of the device type of the given name, if the table holds it.
pub fn find_device_type(label: &str) -> (r: Option<(u16, u16)>)
    ensures
        r == device_type_codes(label@),
{
    let mut k: u16 = 0;
    while k < DEVICE_TYPE_PAIRS
        invariant
            k <= DEVICE_TYPE_PAIRS,
            device_type_codes(label@) == device_type_codes_from(label@, k as int),
        decreases DEVICE_TYPE_PAIRS - k,
    {
        let value = k / 10 + 1;
        let subvalue = k % 10 + 1;
        if let Some(category) = category_from_codes(value, subvalue) {
            if crate::text::same_text(category.label(), label) {
                return Some((value, subvalue));
            }
        }
        k += 1;
    }
    None
}

/// Whether a network has been set up through Wi-Fi Protected Setup.
#[derive(Copy, Clone, Debug, PartialEq, Eq, Structural)]
pub enum WpsSetupState {
    NotConfigured,
    Configured,
}

impl WpsSetupState {
    /// The state that a code names: 1 is not configured, 2 is configured.
    pub open spec fn of(code: u8) -> Option<WpsSetupState> {
        match code {
            1 => Some(WpsSetupState::NotConfigured),
            2 => Some(WpsSetupState::Configured),
            _ => None,
        }
    }

    /// The code of this state.
    pub open spec fn code_spec(self) -> u8 {
        match self {
            WpsSetupState::NotConfigured => 1,
            WpsSetupState::Configured => 2,
        }
    }

    /// The name of this state in words.
    pub open spec fn label_spec(self) -> &'static str {
        match self {
            WpsSetupState::NotConfigured => "Not Configured",
            WpsSetupState::Configured => "Configured",
        }
    }

    /// The state that a code names.
    pub fn from_code(code: u8) -> (r: Option<WpsSetupState>)
        ensures
            r == WpsSetupState::of(code),
    {
        match code {
            1 => Some(WpsSetupState::NotConfigured),
            2 => Some(WpsSetupState::Configured),
            _ => None,
        }
    }

    /// The code of this state.
    pub fn code(&self) -> (c: u8)
        ensures
            c == self.code_spec(),
    {
        match self {
            WpsSetupState::NotConfigured => 1,
            WpsSetupState::Configured => 2,
        }
    }

    /// The name of this state in words.
    pub fn label(&self) -> (s: &'static str)
        ensures
            s == self.label_spec(),
    {
        match self {
            WpsSetupState::NotConfigured => "Not Configured",
            WpsSetupState::Configured => "Configured",
        }
    }
}

/// What a device announces of itself through Wi-Fi Protected Setup. A field that the
/// element does not carry is empty; the state is then "not configured".
#[derive(Clone, Debug)]
pub struct WpsInformation {
    pub setup_state: WpsSetupState,
    pub manufacturer: String,
    pub model: String,
    pub model_number: String,
    pub serial_number: String,
    pub primary_device_type: String,
    pub device_name: String,
}

/// A [`WpsInformation`] as a mathematical value.
pub ghost struct WpsInformationView {
    pub setup_state: WpsSetupState,
    pub manufacturer: Seq<char>,
    pub model: Seq<char>,
    pub model_number: Seq<char>,
    pub serial_number: Seq<char>,
    pub primary_device_type: Seq<char>,
    pub device_name: Seq<char>,
}

impl View for WpsInformation {
    type V = WpsInformationView;

    open spec fn view(&self) -> WpsInformationView {
        WpsInformationView {
            setup_state: self.setup_state,
            manufacturer: self.manufacturer@,
            model: self.model@,
            model_number: self.model_number@,
            serial_number: self.serial_number@,
            primary_device_type: self.primary_device_type@,
            device_name: self.device_name@,
        }
    }
}

impl DeepView for WpsInformation {
    type V = WpsInformationView;

    open spec fn deep_view(&self) -> WpsInformationView {
        self@
    }
}

/// `theirs` unless it is empty, then `ours`.
pub open spec fn prefer(ours: Seq<char>, theirs: Seq<char>) -> Seq<char> {
    if theirs.len() == 0 {
        ours
    } else {
        theirs
    }
}

impl WpsInformationView {
    /// The information with nothing announced.
    pub open spec fn empty() -> WpsInformationView {
        WpsInformationView {
            setup_state: WpsSetupState::NotConfigured,
            manufacturer: Seq::empty(),
            model: Seq::empty(),
            model_number: Seq::empty(),
            serial_number: Seq::empty(),
            primary_device_type: Seq::empty(),
            device_name: Seq::empty(),
        }
    }

    /// This information with every field that `other` announces taken from `other`.
    pub open spec fn updated_with(self, other: WpsInformationView) -> WpsInformationView {
        WpsInformationView {
            setup_state: if other.setup_state != WpsSetupState::NotConfigured {
                other.setup_state
            } else {
                self.setup_state
            },
            manufacturer: prefer(self.manufacturer, other.manufacturer),
            model: prefer(self.model, other.model),
            model_number: prefer(self.model_number, other.model_number),
            serial_number: prefer(self.serial_number, other.serial_number),
            primary_device_type: prefer(self.primary_device_type, other.primary_device_type),
            device_name: prefer(self.device_name, other.device_name),
        }
    }
}

/// One element of WPS information on the wire: kind and length as big-endian words, then
/// the body. The length is cut to 16 bits.
pub open spec fn wps_element(kind: u16, body: Seq<u8>) -> Seq<u8> {
    crate::wire::u16_be_bytes(kind) + crate::wire::u16_be_bytes((body.len() % 0x1_0000) as u16)
        + body
}

/// The element of a text. It is not written for an empty text.
pub open spec fn text_element(kind: u16, text: Seq<char>) -> Seq<u8> {
    if text.len() == 0 {
        Seq::<u8>::empty()
    } else {
        wps_element(kind, vstd::utf8::encode_utf8(text))
    }
}

/// The body of the element of a primary device type: the category code, the prefix
/// `00 50 f2 04`, and the subcategory code.
pub open spec fn device_type_body(codes: (u16, u16)) -> Seq<u8> {
    crate::wire::u16_be_bytes(codes.0) + crate::frame::components::security::wpa_oui().push(4)
        + crate::wire::u16_be_bytes(codes.1)
}

/// The element of the primary device type of the given name. It is not written for a name
/// that the table of device types does not hold.
pub open spec fn device_type_element(label: Seq<char>) -> Seq<u8> {
    match device_type_codes(label) {
        Some(codes) => wps_element(0x1054, device_type_body(codes)),
        None => Seq::<u8>::empty(),
    }
}

impl WpsInformationView {
    /// The elements of this information on the wire: the setup state, then each text that
    /// is not empty, the device type among them in the place of its kind.
    pub open spec fn encode(self) -> Seq<u8> {
        wps_element(0x1057, seq![self.setup_state.code_spec()]) + text_element(
            0x1021,
            self.manufacturer,
        ) + text_element(0x1023, self.model) + text_element(0x1024, self.model_number)
            + text_element(0x1042, self.serial_number) + device_type_element(
            self.primary_device_type,
        ) + text_element(0x1011, self.device_name)
    }

    /// Information that comes back from its own bytes: every text fits the 16 bits of its
    /// length, and the primary device type is empty or a name of the table of device
    /// types.
    pub open spec fn canonical(self) -> bool {
        &&& vstd::utf8::encode_utf8(self.manufacturer).len() <= 0xFFFF
        &&& vstd::utf8::encode_utf8(self.model).len() <= 0xFFFF
        &&& vstd::utf8::encode_utf8(self.model_number).len() <= 0xFFFF
        &&& vstd::utf8::encode_utf8(self.serial_number).len() <= 0xFFFF
        &&& vstd::utf8::encode_utf8(self.device_name).len() <= 0xFFFF
        &&& self.primary_device_type.len() == 0 || device_type_codes(
            self.primary_device_type,
        ) is Some
    }
}

/// Appends one element of WPS information.
fn push_wps_element(out: &mut Vec<u8>, kind: u16, body: &[u8])
    ensures
        final(out)@ == old(out)@ + wps_element(kind, body@),
{
    let ghost before = out@;
    crate::wire::push_be_u16(out, kind);
    crate::wire::push_be_u16(out, (body.len() % 0x1_0000) as u16);
    crate::wire::push_bytes(out, body);
    assert(out@ =~= before + wps_element(kind, body@));
}

/// Appends the element of a text.
fn push_text_element(out: &mut Vec<u8>, kind: u16, text: &str)
    ensures
        final(out)@ == old(out)@ + text_element(kind, text@),
{
    if text.is_empty() {
        assert(out@ =~= out@ + Seq::<u8>::empty());
    } else {
        push_wps_element(out, kind, text.as_bytes());
    }
}

impl WpsInformation {
    /// The elements of this information on the wire, as they follow the vendor prefix.
    pub fn encode(&self) -> (bytes: Vec<u8>)
        ensures
            bytes@ == self@.encode(),
    {
        let mut bytes: Vec<u8> = Vec::new();
        let state = [self.setup_state.code()];
        assert(state@ =~= seq![self.setup_state.code_spec()]);
        push_wps_element(&mut bytes, 0x1057, state.as_slice());
        assert(bytes@ =~= wps_element(0x1057, seq![self.setup_state.code_spec()]));
        push_text_element(&mut bytes, 0x1021, self.manufacturer.as_str());
        push_text_element(&mut bytes, 0x1023, self.model.as_str());
        push_text_element(&mut bytes, 0x1024, self.model_number.as_str());
        push_text_element(&mut bytes, 0x1042, self.serial_number.as_str());
        match find_device_type(self.primary_device_type.as_str()) {
            Some(codes) => {
                let mut body: Vec<u8> = Vec::new();
                crate::wire::push_be_u16(&mut body, codes.0);
                crate::wire::push_bytes(&mut body, [0x00u8, 0x50, 0xF2, 0x04].as_slice());
                crate::wire::push_be_u16(&mut body, codes.1);
                assert(body@ =~= device_type_body(codes));
                push_wps_element(&mut bytes, 0x1054, body.as_slice());
            },
            None => {
                assert(bytes@ =~= bytes@ + Seq::<u8>::empty());
            },
        }
        push_text_element(&mut bytes, 0x1011, self.device_name.as_str());
        bytes
    }
}

impl Default for WpsInformation {
    fn default() -> (info: WpsInformation)
        ensures
            info@ == WpsInformationView::empty(),
    {
        WpsInformation {
            setup_state: WpsSetupState::NotConfigured,
            manufacturer: String::new(),
            model: String::new(),
            model_number: String::new(),
            serial_number: String::new(),
            primary_device_type: String::new(),
            device_name: String::new(),
        }
    }
}

impl WpsInformation {
    /// Takes over every field that `other` announces.
    pub fn update_with(&mut self, other: &WpsInformation)
        ensures
            final(self)@ == old(self)@.updated_with(other@),
    {
        if other.setup_state != WpsSetupState::NotConfigured {
            self.setup_state = other.setup_state;
        }
        if !other.manufacturer.as_str().is_empty() {
            self.manufacturer = other.manufacturer.clone();
        }
        if !other.model.as_str().is_empty() {
            self.model = other.model.clone();
        }
        if !other.model_number.as_str().is_empty() {
            self.model_number = other.model_number.clone();
        }
        if !other.serial_number.as_str().is_empty() {
            self.serial_number = other.serial_number.clone();
        }
        if !other.primary_device_type.as_str().is_empty() {
            self.primary_device_type = other.primary_device_type.clone();
        }
        if !other.device_name.as_str().is_empty() {
            self.device_name = other.device_name.clone();
        }
    }
}

} // verus!
