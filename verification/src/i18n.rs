//! Interface languages and the message table: every text that the interface
//! shows, in Chinese and English, looked up by key.
//!
//! Dynamic texts hold anonymous `{}` placeholders that [`fill`] replaces with
//! arguments in order.

use vstd::prelude::*;

use crate::text::chars_of;
use crate::text::push_char;
use crate::text::push_chars;
use crate::text::views;

verus! {

/// Interface language.
#[derive(Clone, Copy, PartialEq, Eq, Debug, Structural)]
pub enum Lang {
    Zh,
    En,
}

/// Message key: each variant names one entry of the message table.
#[derive(Clone, Copy, PartialEq, Eq, Debug, Hash, Structural)]
pub enum Msg {

    // ---- 顶栏 / 通用 ----
    AppTitle,
    ConnectedDot,
    NotConnectedDot,
    ThemeSystem,
    ThemeLight,
    ThemeDark,
    Log,
    Clear,
    LogEntries,
    Send,
    All,
    // ---- 设备检测 ----
    DeviceDetection,
    ProbeLabel,
    NotSelected,
    Rescan,
    ScanningProbes,
    Scanning,
    ConnectionMode,
    BootNormal,
    BootUnderReset,
    BootModeHint,
    AutoDetectTarget,
    AutoDetecting,
    Disconnect,
    Disconnected,
    Connecting,
    ManualTargetSel,
    AutoDetectFailedHint,
    ManualTargetHint,
    LoadChipFile,
    LoadingChipFile,
    GenerateFromPack,
    GeneratingFromPack,
    SearchModel,
    SearchHint,
    SelectedChip,
    Brand,
    Family,
    Variant,
    NoMatchingBrand,
    NoMatchingFamily,
    NoMatchingVariant,
    SelectFamilyFirst,
    ConnectByModel,
    ConnectingTo,
    TargetInfo,
    ChipModel,
    Arch,
    CoreCount,
    Core,
    MemoryMap,
    TargetNotConnected,
    BrandOther,
    BrandArm,
    BrandRiscv,
    BrandExternal,
    // ---- 高级芯片配置（左侧 target-gen 面板） ----
    AdvancedChipConfig,
    AdvancedChipConfigHint,
    TgInput,
    TgInputHint,
    TgBrowseFile,
    TgBrowseDir,
    TgOutputDir,
    TgOutputDirHint,
    TgOnlySupported,
    TgOnlySupportedHint,
    TgGenerate,
    TgGenerateConnect,
    TgGenerating,
    TgResult,
    TgVariants,
    TgInputMissing,
    TgNoSupportedFamily,
    TgSerializeFailed,
    TargetsGenerated,
    TargetFileWritten,
    TgLoadedToSelection,
    // ---- 固件烧录 ----
    FirmwareFlashing,
    FirmwareFile,
    FirmwareHint,
    Browse,
    FirmwareImage,
    SelectProjectFolder,
    ScanningProject,
    FileFormat,
    BaseAddress,
    ScanningRoot,
    ProjectFirmware,
    NoProjectFirmware,
    SelectedFirmware,
    ChipEraseBeforeFlash,
    VerifyAfterFlash,
    KeepUnwritten,
    ResetAndRun,
    FlashBtn,
    EraseAllBtn,
    ErasingAll,
    ResetTargetBtn,
    ResettingTarget,
    ReadFirmwareTitle,
    Range,
    Bytes,
    SizeKb,
    ReadFirmwareBtn,
    StartingRead,
    // ---- 内存查看器 ----
    MemoryViewer,
    CustomAddress,
    Region,
    Address,
    BytesCount,
    ReadBtn,
    NotReadYet,
    WriteMemory,
    Data,
    HexHint,
    WriteBtn,
    // ---- RTT 日志 ----
    RttLog,
    StopBtn,
    RttRunning,
    StartBtn,
    StartingRtt,
    StoppingRtt,
    AutoScroll,
    ShowChannel,
    SendChannel,
    SendHint,
    // ---- 应用日志 / 操作反馈 ----
    LoadedChips,
    ScanningDebugProbes,
    NoProbes,
    DetectedProbes,
    ConnectedTo,
    OperationCompleted,
    NoFirmwareFound,
    AutoDetectedFirmware,
    UseOtherFirmware,
    ChipFileLoaded,
    PackGenerated,
    RttStartedSummary,
    MemoryReadDone,
    MemoryWritten,
    UnsupportedFormat,
    FlashingPath,
    ConnectFirst,
    ReadLenClamped,
    ReadingMemory,
    InvalidHexData,
    WritingMemory,
    // ---- 后台线程 ----
    NotConnectedErr,
    RttStoppedReconnect,
    RttStoppedFlash,
    RttStoppedErase,
    RttStoppedRead,
    RttStoppedManual,
    NoProbeIndex,
    OpenProbeFailed,
    ConnectTargetFailed,
    AutoDetectFailed,
    UnderResetFailed,
    ResetFailed,
    ReadFileFailed,
    PackGenFailed,
    PackNoChips,
    UnsupportedFileFormat,
    FlashFailed,
    EraseFailed,
    CreateFileFailed,
    GetCoreFailed,
    ReadFlashFailed,
    WriteFileFailed,
    ReadingFirmware,
    ReadOp,
    ReadMemoryFailed,
    WriteMemoryFailed,
    LayoutParsed,
    StartingOp,
    EraseLabel,
    ProgramLabel,
    VerifyLabel,
    FillLabel,
    // ---- RTT 后台 ----
    RttNotConnected,
    RttCoreFailedStart,
    RttStartedDetected,
    RttStartFailed,
    RttCoreFailedStopped,
    RttReadFailed,
    RttNotStarted,
    RttCoreFailed,
    RttDownWriteFailed,
    RttDownBufferFull,
    RttNoDownChannel,
}

/// Chinese text of a message.
pub open spec fn zh_text(m: Msg) -> Seq<char> {
    match m {
        Msg::AppTitle => "Probe-rs 烧录工具"@,
        Msg::ConnectedDot => "● 已连接"@,
        Msg::NotConnectedDot => "○ 未连接"@,
        Msg::ThemeSystem => "跟随系统"@,
        Msg::ThemeLight => "浅色"@,
        Msg::ThemeDark => "深色"@,
        Msg::Log => "日志"@,
        Msg::Clear => "清空"@,
        Msg::LogEntries => "共 {} 条"@,
        Msg::Send => "发送"@,
        Msg::All => "全部"@,
        Msg::DeviceDetection => "设备检测"@,
        Msg::ProbeLabel => "调试探针:"@,
        Msg::NotSelected => "未选择"@,
        Msg::Rescan => "重新扫描"@,
        Msg::ScanningProbes => "正在扫描探针..."@,
        Msg::Scanning => "扫描中..."@,
        Msg::ConnectionMode => "连接方式:"@,
        Msg::BootNormal => "正常连接"@,
        Msg::BootUnderReset => "复位期间连接"@,
        Msg::BootModeHint => "正常连接：从主 Flash 启动（BOOT0=0）；复位期间连接：保持目标复位直至连接完成（常用于 BOOT0 拉高从系统存储器启动等场景）"@,
        Msg::AutoDetectTarget => "自动识别目标"@,
        Msg::AutoDetecting => "正在自动识别目标芯片..."@,
        Msg::Disconnect => "断开"@,
        Msg::Disconnected => "已断开连接"@,
        Msg::Connecting => "正在连接目标..."@,
        Msg::ManualTargetSel => "手动指定目标芯片"@,
        Msg::AutoDetectFailedHint => "（自动识别失败，请手动选择）"@,
        Msg::ManualTargetHint => "DAPLink / CMSIS-DAP 等探针需手动选择芯片型号"@,
        Msg::LoadChipFile => "加载芯片描述文件..."@,
        Msg::LoadingChipFile => "正在加载芯片描述文件: {}"@,
        Msg::GenerateFromPack => "从 CMSIS 包生成..."@,
        Msg::GeneratingFromPack => "正在从 CMSIS 包生成芯片描述: {}"@,
        Msg::SearchModel => "搜索型号:"@,
        Msg::SearchHint => "如 stm32f103 / nrf52840"@,
        Msg::SelectedChip => "已选型号: {}"@,
        Msg::Brand => "品牌"@,
        Msg::Family => "系列"@,
        Msg::Variant => "具体型号"@,
        Msg::NoMatchingBrand => "未找到匹配的品牌"@,
        Msg::NoMatchingFamily => "无匹配系列"@,
        Msg::NoMatchingVariant => "该系列下无匹配型号"@,
        Msg::SelectFamilyFirst => "请先在左侧选择芯片系列"@,
        Msg::ConnectByModel => "按型号连接"@,
        Msg::ConnectingTo => "正在连接 {} ..."@,
        Msg::TargetInfo => "目标信息"@,
        Msg::ChipModel => "芯片型号: {}"@,
        Msg::Arch => "架构: {}"@,
        Msg::CoreCount => "核心数量: {}"@,
        Msg::Core => "  核心 {}: {}"@,
        Msg::MemoryMap => "内存映射:"@,
        Msg::TargetNotConnected => "尚未连接目标"@,
        Msg::BrandOther => "其他"@,
        Msg::BrandArm => "ARM 通用"@,
        Msg::BrandRiscv => "RISC-V 通用"@,
        Msg::BrandExternal => "外部芯片包"@,
        Msg::AdvancedChipConfig => "高级芯片配置"@,
        Msg::AdvancedChipConfigHint => "加载本地 CMSIS Pack（.pack / .pdsc / .zip 或解压目录），自动生成芯片描述，可直接生成后连接目标"@,
        Msg::TgInput => "输入:"@,
        Msg::TgInputHint => "选择 .pack / .pdsc / .zip 文件，或包含 .pdsc 的解压目录"@,
        Msg::TgBrowseFile => "文件..."@,
        Msg::TgBrowseDir => "目录..."@,
        Msg::TgOutputDir => "输出目录:"@,
        Msg::TgOutputDirHint => "可选：生成的 <family>.yaml 将写入此目录"@,
        Msg::TgOnlySupported => "仅生成已支持的芯片族"@,
        Msg::TgOnlySupportedHint => "勾选后仅保留 probe-rs 内置支持芯片族的 target 定义，减少无关文件"@,
        Msg::TgGenerate => "生成芯片描述"@,
        Msg::TgGenerateConnect => "生成并连接"@,
        Msg::TgGenerating => "正在从 CMSIS Pack 生成 target 定义，请稍候..."@,
        Msg::TgResult => "已生成的芯片族:"@,
        Msg::TgVariants => "个型号"@,
        Msg::TgInputMissing => "输入路径不存在: {}"@,
        Msg::TgNoSupportedFamily => "该包中没有 probe-rs 已支持的芯片族（可取消勾选『仅生成已支持的芯片族』后重试）"@,
        Msg::TgSerializeFailed => "序列化芯片族 {} 失败: {}"@,
        Msg::TargetsGenerated => "已生成 {} 个 target 定义文件"@,
        Msg::TargetFileWritten => "已写入: {}（{} 个型号）"@,
        Msg::TgLoadedToSelection => "已将 {} 个芯片族加载到手动选型列表"@,
        Msg::FirmwareFlashing => "固件烧录"@,
        Msg::FirmwareFile => "固件文件:"@,
        Msg::FirmwareHint => "选择 .elf / .hex / .bin / .uf2 文件"@,
        Msg::Browse => "浏览..."@,
        Msg::FirmwareImage => "固件镜像"@,
        Msg::SelectProjectFolder => "选择项目文件夹..."@,
        Msg::ScanningProject => "正在扫描项目文件夹并自动识别固件: {}"@,
        Msg::FileFormat => "文件格式: {}"@,
        Msg::BaseAddress => "基地址:"@,
        Msg::ScanningRoot => "扫描中: {}"@,
        Msg::ProjectFirmware => "项目固件:"@,
        Msg::NoProjectFirmware => "未选择项目固件"@,
        Msg::SelectedFirmware => "已选择固件: {}"@,
        Msg::ChipEraseBeforeFlash => "全片擦除后烧录"@,
        Msg::VerifyAfterFlash => "烧录后校验"@,
        Msg::KeepUnwritten => "保留未写入字节"@,
        Msg::ResetAndRun => "烧录后复位运行"@,
        Msg::FlashBtn => "开始烧录"@,
        Msg::EraseAllBtn => "全片擦除"@,
        Msg::ErasingAll => "开始全片擦除..."@,
        Msg::ResetTargetBtn => "复位目标"@,
        Msg::ResettingTarget => "正在复位目标..."@,
        Msg::ReadFirmwareTitle => "读取固件"@,
        Msg::Range => "范围:"@,
        Msg::Bytes => "字节"@,
        Msg::SizeKb => "大小: {} KB"@,
        Msg::ReadFirmwareBtn => "读取固件..."@,
        Msg::StartingRead => "开始读取: 0x{} - 0x{}"@,
        Msg::MemoryViewer => "内存查看器"@,
        Msg::CustomAddress => "自定义地址"@,
        Msg::Region => "区域:"@,
        Msg::Address => "地址:"@,
        Msg::BytesCount => "字节数:"@,
        Msg::ReadBtn => "读取"@,
        Msg::NotReadYet => "尚未读取，点击上方『读取』"@,
        Msg::WriteMemory => "写入内存"@,
        Msg::Data => "数据:"@,
        Msg::HexHint => "十六进制字节，如 DE AD BE EF"@,
        Msg::WriteBtn => "写入"@,
        Msg::RttLog => "RTT 日志"@,
        Msg::StopBtn => "停止"@,
        Msg::RttRunning => "● 运行中"@,
        Msg::StartBtn => "启动"@,
        Msg::StartingRtt => "正在启动 RTT（在目标 RAM 中扫描控制块）..."@,
        Msg::StoppingRtt => "正在停止 RTT..."@,
        Msg::AutoScroll => "自动滚动"@,
        Msg::ShowChannel => "显示通道:"@,
        Msg::SendChannel => "发送通道:"@,
        Msg::SendHint => "输入内容后回车或点击发送，写入目标下行通道"@,
        Msg::LoadedChips => "已加载 {} 个内置芯片系列（{} 个品牌），可手动指定目标"@,
        Msg::ScanningDebugProbes => "正在扫描调试探针..."@,
        Msg::NoProbes => "未检测到任何调试探针，请检查 USB 连接与驱动"@,
        Msg::DetectedProbes => "检测到 {} 个调试探针"@,
        Msg::ConnectedTo => "已连接目标: {}"@,
        Msg::OperationCompleted => "操作成功完成"@,
        Msg::NoFirmwareFound => "在 {} 中未找到固件文件 (.elf / .hex / .bin / .uf2)"@,
        Msg::AutoDetectedFirmware => "自动识别到固件: {}（共 {} 个候选）"@,
        Msg::UseOtherFirmware => "如需使用其它固件，请在下方下拉列表中选择"@,
        Msg::ChipFileLoaded => "已加载芯片包: {}（{} 个型号），可在左侧手动选择"@,
        Msg::PackGenerated => "已从 CMSIS 包生成 {} 个芯片族，可在左侧手动选择"@,
        Msg::RttStartedSummary => "RTT 已启动（上行 {}，下行 {}）"@,
        Msg::MemoryReadDone => "读取内存完成: {} 字节"@,
        Msg::MemoryWritten => "内存写入完成"@,
        Msg::UnsupportedFormat => "不支持的文件格式，请选择 .elf / .hex / .bin / .uf2 文件"@,
        Msg::FlashingPath => "开始烧录: {}"@,
        Msg::ConnectFirst => "请先连接目标芯片"@,
        Msg::ReadLenClamped => "读取长度已限制为 {} 字节"@,
        Msg::ReadingMemory => "正在读取内存: 0x{}，{} 字节"@,
        Msg::InvalidHexData => "数据格式错误：请输入十六进制字节（如 DE AD BE EF）"@,
        Msg::WritingMemory => "正在写入内存: 0x{}，{} 字节"@,
        Msg::NotConnectedErr => "尚未连接到目标芯片，请先自动识别目标"@,
        Msg::RttStoppedReconnect => "重新连接前已停止 RTT"@,
        Msg::RttStoppedFlash => "烧录期间已停止 RTT"@,
        Msg::RttStoppedErase => "擦除期间已停止 RTT"@,
        Msg::RttStoppedRead => "读取期间已停止 RTT"@,
        Msg::RttStoppedManual => "RTT 已停止"@,
        Msg::NoProbeIndex => "未找到编号为 {} 的调试探针"@,
        Msg::OpenProbeFailed => "打开探针失败: {}"@,
        Msg::ConnectTargetFailed => "连接目标 {} 失败: {}"@,
        Msg::AutoDetectFailed => "自动识别目标失败: {}。该探针可能不支持自动识别芯片（如 DAPLink/CMSIS-DAP），请在左侧『手动指定目标芯片』中搜索并选择芯片型号后重试"@,
        Msg::UnderResetFailed => "复位期间连接目标失败: {}。该探针可能不支持自动识别芯片（如 DAPLink/CMSIS-DAP），请在左侧『手动指定目标芯片』中搜索并选择芯片型号后重试"@,
        Msg::ResetFailed => "复位失败: {}"@,
        Msg::ReadFileFailed => "读取文件失败: {}: {}"@,
        Msg::PackGenFailed => "生成芯片描述失败: {}"@,
        Msg::PackNoChips => "未在包中找到可用芯片"@,
        Msg::UnsupportedFileFormat => "不支持的文件格式: .{}，请选择 .elf / .hex / .bin / .uf2 文件"@,
        Msg::FlashFailed => "烧录失败: {}"@,
        Msg::EraseFailed => "全片擦除失败: {}"@,
        Msg::CreateFileFailed => "创建文件失败: {}"@,
        Msg::GetCoreFailed => "获取核心失败: {}"@,
        Msg::ReadFlashFailed => "读取 Flash 失败 (0x{}): {}"@,
        Msg::WriteFileFailed => "写入文件失败: {}"@,
        Msg::ReadingFirmware => "开始读取固件: 0x{} - 0x{}（{} KB）"@,
        Msg::ReadOp => "读取"@,
        Msg::ReadMemoryFailed => "读取内存失败 (0x{}): {}"@,
        Msg::WriteMemoryFailed => "写入内存失败 (0x{}): {}"@,
        Msg::LayoutParsed => "已解析固件布局，准备烧录..."@,
        Msg::StartingOp => "开始{}..."@,
        Msg::EraseLabel => "擦除"@,
        Msg::ProgramLabel => "编程"@,
        Msg::VerifyLabel => "校验"@,
        Msg::FillLabel => "填充"@,
        Msg::RttNotConnected => "尚未连接目标，无法启动 RTT"@,
        Msg::RttCoreFailedStart => "获取核心失败，无法启动 RTT: {}"@,
        Msg::RttStartedDetected => "RTT 已启动，检测到 {} 个上行、{} 个下行通道"@,
        Msg::RttStartFailed => "启动 RTT 失败: {}。请确认固件已初始化 RTT 且目标程序正在运行"@,
        Msg::RttCoreFailedStopped => "获取核心失败，RTT 已停止: {}"@,
        Msg::RttReadFailed => "RTT 读取失败，已停止: {}"@,
        Msg::RttNotStarted => "RTT 未启动或未连接目标"@,
        Msg::RttCoreFailed => "获取核心失败: {}"@,
        Msg::RttDownWriteFailed => "RTT 下行写入失败: {}"@,
        Msg::RttDownBufferFull => "目标下行缓冲区已满，部分数据未发送"@,
        Msg::RttNoDownChannel => "目标未配置 RTT 下行通道"@,
    }
}

/// English text of a message.
pub open spec fn en_text(m: Msg) -> Seq<char> {
    match m {
        Msg::AppTitle => "Probe-rs Flasher"@,
        Msg::ConnectedDot => "● Connected"@,
        Msg::NotConnectedDot => "○ Not connected"@,
        Msg::ThemeSystem => "System"@,
        Msg::ThemeLight => "Light"@,
        Msg::ThemeDark => "Dark"@,
        Msg::Log => "Log"@,
        Msg::Clear => "Clear"@,
        Msg::LogEntries => "{} entries"@,
        Msg::Send => "Send"@,
        Msg::All => "All"@,
        Msg::DeviceDetection => "Device Detection"@,
        Msg::ProbeLabel => "Probe:"@,
        Msg::NotSelected => "Not selected"@,
        Msg::Rescan => "Rescan"@,
        Msg::ScanningProbes => "Scanning probes..."@,
        Msg::Scanning => "Scanning..."@,
        Msg::ConnectionMode => "Connection mode:"@,
        Msg::BootNormal => "Normal"@,
        Msg::BootUnderReset => "Under Reset"@,
        Msg::BootModeHint => "Normal: boot from main flash (BOOT0=0); Under Reset: keep the target in reset until connected (e.g. booting from system memory with BOOT0 high)"@,
        Msg::AutoDetectTarget => "Auto-detect Target"@,
        Msg::AutoDetecting => "Auto-detecting target chip..."@,
        Msg::Disconnect => "Disconnect"@,
        Msg::Disconnected => "Disconnected"@,
        Msg::Connecting => "Connecting to target..."@,
        Msg::ManualTargetSel => "Manual Target Selection"@,
        Msg::AutoDetectFailedHint => "(auto-detection failed, select manually)"@,
        Msg::ManualTargetHint => "DAPLink / CMSIS-DAP probes need manual chip selection"@,
        Msg::LoadChipFile => "Load Chip File..."@,
        Msg::LoadingChipFile => "Loading chip description: {}"@,
        Msg::GenerateFromPack => "Generate from CMSIS Pack..."@,
        Msg::GeneratingFromPack => "Generating chip description from CMSIS pack: {}"@,
        Msg::SearchModel => "Search:"@,
        Msg::SearchHint => "e.g. stm32f103 / nrf52840"@,
        Msg::SelectedChip => "Selected: {}"@,
        Msg::Brand => "Brand"@,
        Msg::Family => "Family"@,
        Msg::Variant => "Variant"@,
        Msg::NoMatchingBrand => "No matching brand"@,
        Msg::NoMatchingFamily => "No matching family"@,
        Msg::NoMatchingVariant => "No matching variant in this family"@,
        Msg::SelectFamilyFirst => "Select a chip family on the left first"@,
        Msg::ConnectByModel => "Connect by Model"@,
        Msg::ConnectingTo => "Connecting to {} ..."@,
        Msg::TargetInfo => "Target Info"@,
        Msg::ChipModel => "Chip: {}"@,
        Msg::Arch => "Architecture: {}"@,
        Msg::CoreCount => "Cores: {}"@,
        Msg::Core => "  Core {}: {}"@,
        Msg::MemoryMap => "Memory Map:"@,
        Msg::TargetNotConnected => "Not connected"@,
        Msg::BrandOther => "Other"@,
        Msg::BrandArm => "ARM Generic"@,
        Msg::BrandRiscv => "RISC-V Generic"@,
        Msg::BrandExternal => "External Pack"@,
        Msg::AdvancedChipConfig => "Advanced Chip Config"@,
        Msg::AdvancedChipConfigHint => "Load a local CMSIS Pack (.pack / .pdsc / .zip or unzipped dir), auto-generate chip descriptions, and optionally connect to the target"@,
        Msg::TgInput => "Input:"@,
        Msg::TgInputHint => "Pick a .pack / .pdsc / .zip file, or an unzipped directory containing .pdsc"@,
        Msg::TgBrowseFile => "File..."@,
        Msg::TgBrowseDir => "Dir..."@,
        Msg::TgOutputDir => "Output dir:"@,
        Msg::TgOutputDirHint => "Optional: generated <family>.yaml files will be written here"@,
        Msg::TgOnlySupported => "Only supported families"@,
        Msg::TgOnlySupportedHint => "When checked, only targets for probe-rs built-in supported families are kept"@,
        Msg::TgGenerate => "Generate"@,
        Msg::TgGenerateConnect => "Generate & Connect"@,
        Msg::TgGenerating => "Generating target definitions from the CMSIS pack..."@,
        Msg::TgResult => "Generated families:"@,
        Msg::TgVariants => "variants"@,
        Msg::TgInputMissing => "Input path does not exist: {}"@,
        Msg::TgNoSupportedFamily => "No probe-rs supported family found in the pack (uncheck 'Only supported families' and retry)"@,
        Msg::TgSerializeFailed => "Failed to serialize family {}: {}"@,
        Msg::TargetsGenerated => "Generated {} target definition file(s)"@,
        Msg::TargetFileWritten => "Written: {} ({} variant(s))"@,
        Msg::TgLoadedToSelection => "Loaded {} chip family(ies) into the manual selection list"@,
        Msg::FirmwareFlashing => "Firmware Flashing"@,
        Msg::FirmwareFile => "Firmware file:"@,
        Msg::FirmwareHint => "Select .elf / .hex / .bin / .uf2 file"@,
        Msg::Browse => "Browse..."@,
        Msg::FirmwareImage => "Firmware image"@,
        Msg::SelectProjectFolder => "Select Project Folder..."@,
        Msg::ScanningProject => "Scanning project folder and auto-detecting firmware: {}"@,
        Msg::FileFormat => "File format: {}"@,
        Msg::BaseAddress => "Base address:"@,
        Msg::ScanningRoot => "Scanning: {}"@,
        Msg::ProjectFirmware => "Project firmware:"@,
        Msg::NoProjectFirmware => "No project firmware"@,
        Msg::SelectedFirmware => "Selected firmware: {}"@,
        Msg::ChipEraseBeforeFlash => "Chip erase before flash"@,
        Msg::VerifyAfterFlash => "Verify after flash"@,
        Msg::KeepUnwritten => "Keep unwritten bytes"@,
        Msg::ResetAndRun => "Reset and run after flash"@,
        Msg::FlashBtn => "Flash"@,
        Msg::EraseAllBtn => "Erase All"@,
        Msg::ErasingAll => "Erasing all flash..."@,
        Msg::ResetTargetBtn => "Reset Target"@,
        Msg::ResettingTarget => "Resetting target..."@,
        Msg::ReadFirmwareTitle => "Read Firmware"@,
        Msg::Range => "Range:"@,
        Msg::Bytes => "bytes"@,
        Msg::SizeKb => "Size: {} KB"@,
        Msg::ReadFirmwareBtn => "Read Firmware..."@,
        Msg::StartingRead => "Starting read: 0x{} - 0x{}"@,
        Msg::MemoryViewer => "Memory Viewer"@,
        Msg::CustomAddress => "Custom address"@,
        Msg::Region => "Region:"@,
        Msg::Address => "Address:"@,
        Msg::BytesCount => "Bytes:"@,
        Msg::ReadBtn => "Read"@,
        Msg::NotReadYet => "Not read yet; click 'Read' above"@,
        Msg::WriteMemory => "Write Memory"@,
        Msg::Data => "Data:"@,
        Msg::HexHint => "Hex bytes, e.g. DE AD BE EF"@,
        Msg::WriteBtn => "Write"@,
        Msg::RttLog => "RTT Log"@,
        Msg::StopBtn => "Stop"@,
        Msg::RttRunning => "● Running"@,
        Msg::StartBtn => "Start"@,
        Msg::StartingRtt => "Starting RTT (scanning target RAM for the control block)..."@,
        Msg::StoppingRtt => "Stopping RTT..."@,
        Msg::AutoScroll => "Auto-scroll"@,
        Msg::ShowChannel => "Show channel:"@,
        Msg::SendChannel => "Send channel:"@,
        Msg::SendHint => "Type and press Enter or click Send to write to a down channel"@,
        Msg::LoadedChips => "Loaded {} built-in chip families ({} brands); manual target selection is available"@,
        Msg::ScanningDebugProbes => "Scanning debug probes..."@,
        Msg::NoProbes => "No debug probes detected. Check USB connection and drivers"@,
        Msg::DetectedProbes => "Detected {} debug probe(s)"@,
        Msg::ConnectedTo => "Connected to target: {}"@,
        Msg::OperationCompleted => "Operation completed successfully"@,
        Msg::NoFirmwareFound => "No firmware file (.elf / .hex / .bin / .uf2) found in {}"@,
        Msg::AutoDetectedFirmware => "Auto-detected firmware: {} ({} candidate(s))"@,
        Msg::UseOtherFirmware => "To use another firmware, pick one from the dropdown below"@,
        Msg::ChipFileLoaded => "Chip pack loaded: {} ({} variant(s)); select it manually on the left"@,
        Msg::PackGenerated => "Generated {} chip family(ies) from CMSIS pack; select them manually on the left"@,
        Msg::RttStartedSummary => "RTT started ({} up, {} down)"@,
        Msg::MemoryReadDone => "Memory read: {} bytes"@,
        Msg::MemoryWritten => "Memory written"@,
        Msg::UnsupportedFormat => "Unsupported file format. Choose a .elf / .hex / .bin / .uf2 file"@,
        Msg::FlashingPath => "Flashing: {}"@,
        Msg::ConnectFirst => "Connect to a target first"@,
        Msg::ReadLenClamped => "Read length clamped to {} bytes"@,
        Msg::ReadingMemory => "Reading memory: 0x{}, {} bytes"@,
        Msg::InvalidHexData => "Invalid data: enter hex bytes (e.g. DE AD BE EF)"@,
        Msg::WritingMemory => "Writing memory: 0x{}, {} bytes"@,
        Msg::NotConnectedErr => "Not connected to a target. Auto-detect or select the target first"@,
        Msg::RttStoppedReconnect => "RTT stopped before reconnecting"@,
        Msg::RttStoppedFlash => "RTT stopped during flashing"@,
        Msg::RttStoppedErase => "RTT stopped during erase"@,
        Msg::RttStoppedRead => "RTT stopped during read"@,
        Msg::RttStoppedManual => "RTT stopped"@,
        Msg::NoProbeIndex => "No debug probe with index {} found"@,
        Msg::OpenProbeFailed => "Failed to open probe: {}"@,
        Msg::ConnectTargetFailed => "Failed to connect to target {}: {}"@,
        Msg::AutoDetectFailed => "Auto-detection failed: {}. The probe may not support auto-identification (e.g. DAPLink/CMSIS-DAP). Please search and select the chip model under 'Manual Target Selection' on the left and retry"@,
        Msg::UnderResetFailed => "Failed to attach under reset: {}. The probe may not support auto-identification (e.g. DAPLink/CMSIS-DAP). Please search and select the chip model under 'Manual Target Selection' on the left and retry"@,
        Msg::ResetFailed => "Reset failed: {}"@,
        Msg::ReadFileFailed => "Failed to read file: {}: {}"@,
        Msg::PackGenFailed => "Failed to generate chip description: {}"@,
        Msg::PackNoChips => "No usable chips found in the pack"@,
        Msg::UnsupportedFileFormat => "Unsupported file format: .{}. Choose a .elf / .hex / .bin / .uf2 file"@,
        Msg::FlashFailed => "Flashing failed: {}"@,
        Msg::EraseFailed => "Chip erase failed: {}"@,
        Msg::CreateFileFailed => "Failed to create file: {}"@,
        Msg::GetCoreFailed => "Failed to get core: {}"@,
        Msg::ReadFlashFailed => "Failed to read flash (0x{}): {}"@,
        Msg::WriteFileFailed => "Failed to write file: {}"@,
        Msg::ReadingFirmware => "Reading firmware: 0x{} - 0x{} ({} KB)"@,
        Msg::ReadOp => "Read"@,
        Msg::ReadMemoryFailed => "Failed to read memory (0x{}): {}"@,
        Msg::WriteMemoryFailed => "Failed to write memory (0x{}): {}"@,
        Msg::LayoutParsed => "Firmware layout parsed, ready to flash..."@,
        Msg::StartingOp => "Starting {}..."@,
        Msg::EraseLabel => "Erase"@,
        Msg::ProgramLabel => "Program"@,
        Msg::VerifyLabel => "Verify"@,
        Msg::FillLabel => "Fill"@,
        Msg::RttNotConnected => "Not connected to a target. Cannot start RTT"@,
        Msg::RttCoreFailedStart => "Failed to get core. Cannot start RTT: {}"@,
        Msg::RttStartedDetected => "RTT started: {} up, {} down channel(s)"@,
        Msg::RttStartFailed => "Failed to start RTT: {}. Make sure the firmware has initialized RTT and is running"@,
        Msg::RttCoreFailedStopped => "Failed to get core; RTT stopped: {}"@,
        Msg::RttReadFailed => "RTT read failed, stopped: {}"@,
        Msg::RttNotStarted => "RTT not started or not connected"@,
        Msg::RttCoreFailed => "Failed to get core: {}"@,
        Msg::RttDownWriteFailed => "RTT down write failed: {}"@,
        Msg::RttDownBufferFull => "Target down buffer full, some data was not sent"@,
        Msg::RttNoDownChannel => "Target has no RTT down channel"@,
    }
}

/// Text of message `m` in language `lang`.
pub open spec fn msg_text(lang: Lang, m: Msg) -> Seq<char> {
    if lang == Lang::En {
        en_text(m)
    } else {
        zh_text(m)
    }
}

fn zh(m: Msg) -> (s: &'static str)
    ensures
        s@ == zh_text(m),
{
    match m {
        Msg::AppTitle => "Probe-rs 烧录工具",
        Msg::ConnectedDot => "● 已连接",
        Msg::NotConnectedDot => "○ 未连接",
        Msg::ThemeSystem => "跟随系统",
        Msg::ThemeLight => "浅色",
        Msg::ThemeDark => "深色",
        Msg::Log => "日志",
        Msg::Clear => "清空",
        Msg::LogEntries => "共 {} 条",
        Msg::Send => "发送",
        Msg::All => "全部",
        Msg::DeviceDetection => "设备检测",
        Msg::ProbeLabel => "调试探针:",
        Msg::NotSelected => "未选择",
        Msg::Rescan => "重新扫描",
        Msg::ScanningProbes => "正在扫描探针...",
        Msg::Scanning => "扫描中...",
        Msg::ConnectionMode => "连接方式:",
        Msg::BootNormal => "正常连接",
        Msg::BootUnderReset => "复位期间连接",
        Msg::BootModeHint => "正常连接：从主 Flash 启动（BOOT0=0）；复位期间连接：保持目标复位直至连接完成（常用于 BOOT0 拉高从系统存储器启动等场景）",
        Msg::AutoDetectTarget => "自动识别目标",
        Msg::AutoDetecting => "正在自动识别目标芯片...",
        Msg::Disconnect => "断开",
        Msg::Disconnected => "已断开连接",
        Msg::Connecting => "正在连接目标...",
        Msg::ManualTargetSel => "手动指定目标芯片",
        Msg::AutoDetectFailedHint => "（自动识别失败，请手动选择）",
        Msg::ManualTargetHint => "DAPLink / CMSIS-DAP 等探针需手动选择芯片型号",
        Msg::LoadChipFile => "加载芯片描述文件...",
        Msg::LoadingChipFile => "正在加载芯片描述文件: {}",
        Msg::GenerateFromPack => "从 CMSIS 包生成...",
        Msg::GeneratingFromPack => "正在从 CMSIS 包生成芯片描述: {}",
        Msg::SearchModel => "搜索型号:",
        Msg::SearchHint => "如 stm32f103 / nrf52840",
        Msg::SelectedChip => "已选型号: {}",
        Msg::Brand => "品牌",
        Msg::Family => "系列",
        Msg::Variant => "具体型号",
        Msg::NoMatchingBrand => "未找到匹配的品牌",
        Msg::NoMatchingFamily => "无匹配系列",
        Msg::NoMatchingVariant => "该系列下无匹配型号",
        Msg::SelectFamilyFirst => "请先在左侧选择芯片系列",
        Msg::ConnectByModel => "按型号连接",
        Msg::ConnectingTo => "正在连接 {} ...",
        Msg::TargetInfo => "目标信息",
        Msg::ChipModel => "芯片型号: {}",
        Msg::Arch => "架构: {}",
        Msg::CoreCount => "核心数量: {}",
        Msg::Core => "  核心 {}: {}",
        Msg::MemoryMap => "内存映射:",
        Msg::TargetNotConnected => "尚未连接目标",
        Msg::BrandOther => "其他",
        Msg::BrandArm => "ARM 通用",
        Msg::BrandRiscv => "RISC-V 通用",
        Msg::BrandExternal => "外部芯片包",
        Msg::AdvancedChipConfig => "高级芯片配置",
        Msg::AdvancedChipConfigHint => "加载本地 CMSIS Pack（.pack / .pdsc / .zip 或解压目录），自动生成芯片描述，可直接生成后连接目标",
        Msg::TgInput => "输入:",
        Msg::TgInputHint => "选择 .pack / .pdsc / .zip 文件，或包含 .pdsc 的解压目录",
        Msg::TgBrowseFile => "文件...",
        Msg::TgBrowseDir => "目录...",
        Msg::TgOutputDir => "输出目录:",
        Msg::TgOutputDirHint => "可选：生成的 <family>.yaml 将写入此目录",
        Msg::TgOnlySupported => "仅生成已支持的芯片族",
        Msg::TgOnlySupportedHint => "勾选后仅保留 probe-rs 内置支持芯片族的 target 定义，减少无关文件",
        Msg::TgGenerate => "生成芯片描述",
        Msg::TgGenerateConnect => "生成并连接",
        Msg::TgGenerating => "正在从 CMSIS Pack 生成 target 定义，请稍候...",
        Msg::TgResult => "已生成的芯片族:",
        Msg::TgVariants => "个型号",
        Msg::TgInputMissing => "输入路径不存在: {}",
        Msg::TgNoSupportedFamily => "该包中没有 probe-rs 已支持的芯片族（可取消勾选『仅生成已支持的芯片族』后重试）",
        Msg::TgSerializeFailed => "序列化芯片族 {} 失败: {}",
        Msg::TargetsGenerated => "已生成 {} 个 target 定义文件",
        Msg::TargetFileWritten => "已写入: {}（{} 个型号）",
        Msg::TgLoadedToSelection => "已将 {} 个芯片族加载到手动选型列表",
        Msg::FirmwareFlashing => "固件烧录",
        Msg::FirmwareFile => "固件文件:",
        Msg::FirmwareHint => "选择 .elf / .hex / .bin / .uf2 文件",
        Msg::Browse => "浏览...",
        Msg::FirmwareImage => "固件镜像",
        Msg::SelectProjectFolder => "选择项目文件夹...",
        Msg::ScanningProject => "正在扫描项目文件夹并自动识别固件: {}",
        Msg::FileFormat => "文件格式: {}",
        Msg::BaseAddress => "基地址:",
        Msg::ScanningRoot => "扫描中: {}",
        Msg::ProjectFirmware => "项目固件:",
        Msg::NoProjectFirmware => "未选择项目固件",
        Msg::SelectedFirmware => "已选择固件: {}",
        Msg::ChipEraseBeforeFlash => "全片擦除后烧录",
        Msg::VerifyAfterFlash => "烧录后校验",
        Msg::KeepUnwritten => "保留未写入字节",
        Msg::ResetAndRun => "烧录后复位运行",
        Msg::FlashBtn => "开始烧录",
        Msg::EraseAllBtn => "全片擦除",
        Msg::ErasingAll => "开始全片擦除...",
        Msg::ResetTargetBtn => "复位目标",
        Msg::ResettingTarget => "正在复位目标...",
        Msg::ReadFirmwareTitle => "读取固件",
        Msg::Range => "范围:",
        Msg::Bytes => "字节",
        Msg::SizeKb => "大小: {} KB",
        Msg::ReadFirmwareBtn => "读取固件...",
        Msg::StartingRead => "开始读取: 0x{} - 0x{}",
        Msg::MemoryViewer => "内存查看器",
        Msg::CustomAddress => "自定义地址",
        Msg::Region => "区域:",
        Msg::Address => "地址:",
        Msg::BytesCount => "字节数:",
        Msg::ReadBtn => "读取",
        Msg::NotReadYet => "尚未读取，点击上方『读取』",
        Msg::WriteMemory => "写入内存",
        Msg::Data => "数据:",
        Msg::HexHint => "十六进制字节，如 DE AD BE EF",
        Msg::WriteBtn => "写入",
        Msg::RttLog => "RTT 日志",
        Msg::StopBtn => "停止",
        Msg::RttRunning => "● 运行中",
        Msg::StartBtn => "启动",
        Msg::StartingRtt => "正在启动 RTT（在目标 RAM 中扫描控制块）...",
        Msg::StoppingRtt => "正在停止 RTT...",
        Msg::AutoScroll => "自动滚动",
        Msg::ShowChannel => "显示通道:",
        Msg::SendChannel => "发送通道:",
        Msg::SendHint => "输入内容后回车或点击发送，写入目标下行通道",
        Msg::LoadedChips => "已加载 {} 个内置芯片系列（{} 个品牌），可手动指定目标",
        Msg::ScanningDebugProbes => "正在扫描调试探针...",
        Msg::NoProbes => "未检测到任何调试探针，请检查 USB 连接与驱动",
        Msg::DetectedProbes => "检测到 {} 个调试探针",
        Msg::ConnectedTo => "已连接目标: {}",
        Msg::OperationCompleted => "操作成功完成",
        Msg::NoFirmwareFound => "在 {} 中未找到固件文件 (.elf / .hex / .bin / .uf2)",
        Msg::AutoDetectedFirmware => "自动识别到固件: {}（共 {} 个候选）",
        Msg::UseOtherFirmware => "如需使用其它固件，请在下方下拉列表中选择",
        Msg::ChipFileLoaded => "已加载芯片包: {}（{} 个型号），可在左侧手动选择",
        Msg::PackGenerated => "已从 CMSIS 包生成 {} 个芯片族，可在左侧手动选择",
        Msg::RttStartedSummary => "RTT 已启动（上行 {}，下行 {}）",
        Msg::MemoryReadDone => "读取内存完成: {} 字节",
        Msg::MemoryWritten => "内存写入完成",
        Msg::UnsupportedFormat => "不支持的文件格式，请选择 .elf / .hex / .bin / .uf2 文件",
        Msg::FlashingPath => "开始烧录: {}",
        Msg::ConnectFirst => "请先连接目标芯片",
        Msg::ReadLenClamped => "读取长度已限制为 {} 字节",
        Msg::ReadingMemory => "正在读取内存: 0x{}，{} 字节",
        Msg::InvalidHexData => "数据格式错误：请输入十六进制字节（如 DE AD BE EF）",
        Msg::WritingMemory => "正在写入内存: 0x{}，{} 字节",
        Msg::NotConnectedErr => "尚未连接到目标芯片，请先自动识别目标",
        Msg::RttStoppedReconnect => "重新连接前已停止 RTT",
        Msg::RttStoppedFlash => "烧录期间已停止 RTT",
        Msg::RttStoppedErase => "擦除期间已停止 RTT",
        Msg::RttStoppedRead => "读取期间已停止 RTT",
        Msg::RttStoppedManual => "RTT 已停止",
        Msg::NoProbeIndex => "未找到编号为 {} 的调试探针",
        Msg::OpenProbeFailed => "打开探针失败: {}",
        Msg::ConnectTargetFailed => "连接目标 {} 失败: {}",
        Msg::AutoDetectFailed => "自动识别目标失败: {}。该探针可能不支持自动识别芯片（如 DAPLink/CMSIS-DAP），请在左侧『手动指定目标芯片』中搜索并选择芯片型号后重试",
        Msg::UnderResetFailed => "复位期间连接目标失败: {}。该探针可能不支持自动识别芯片（如 DAPLink/CMSIS-DAP），请在左侧『手动指定目标芯片』中搜索并选择芯片型号后重试",
        Msg::ResetFailed => "复位失败: {}",
        Msg::ReadFileFailed => "读取文件失败: {}: {}",
        Msg::PackGenFailed => "生成芯片描述失败: {}",
        Msg::PackNoChips => "未在包中找到可用芯片",
        Msg::UnsupportedFileFormat => "不支持的文件格式: .{}，请选择 .elf / .hex / .bin / .uf2 文件",
        Msg::FlashFailed => "烧录失败: {}",
        Msg::EraseFailed => "全片擦除失败: {}",
        Msg::CreateFileFailed => "创建文件失败: {}",
        Msg::GetCoreFailed => "获取核心失败: {}",
        Msg::ReadFlashFailed => "读取 Flash 失败 (0x{}): {}",
        Msg::WriteFileFailed => "写入文件失败: {}",
        Msg::ReadingFirmware => "开始读取固件: 0x{} - 0x{}（{} KB）",
        Msg::ReadOp => "读取",
        Msg::ReadMemoryFailed => "读取内存失败 (0x{}): {}",
        Msg::WriteMemoryFailed => "写入内存失败 (0x{}): {}",
        Msg::LayoutParsed => "已解析固件布局，准备烧录...",
        Msg::StartingOp => "开始{}...",
        Msg::EraseLabel => "擦除",
        Msg::ProgramLabel => "编程",
        Msg::VerifyLabel => "校验",
        Msg::FillLabel => "填充",
        Msg::RttNotConnected => "尚未连接目标，无法启动 RTT",
        Msg::RttCoreFailedStart => "获取核心失败，无法启动 RTT: {}",
        Msg::RttStartedDetected => "RTT 已启动，检测到 {} 个上行、{} 个下行通道",
        Msg::RttStartFailed => "启动 RTT 失败: {}。请确认固件已初始化 RTT 且目标程序正在运行",
        Msg::RttCoreFailedStopped => "获取核心失败，RTT 已停止: {}",
        Msg::RttReadFailed => "RTT 读取失败，已停止: {}",
        Msg::RttNotStarted => "RTT 未启动或未连接目标",
        Msg::RttCoreFailed => "获取核心失败: {}",
        Msg::RttDownWriteFailed => "RTT 下行写入失败: {}",
        Msg::RttDownBufferFull => "目标下行缓冲区已满，部分数据未发送",
        Msg::RttNoDownChannel => "目标未配置 RTT 下行通道",
    }
}

fn en(m: Msg) -> (s: &'static str)
    ensures
        s@ == en_text(m),
{
    match m {
        Msg::AppTitle => "Probe-rs Flasher",
        Msg::ConnectedDot => "● Connected",
        Msg::NotConnectedDot => "○ Not connected",
        Msg::ThemeSystem => "System",
        Msg::ThemeLight => "Light",
        Msg::ThemeDark => "Dark",
        Msg::Log => "Log",
        Msg::Clear => "Clear",
        Msg::LogEntries => "{} entries",
        Msg::Send => "Send",
        Msg::All => "All",
        Msg::DeviceDetection => "Device Detection",
        Msg::ProbeLabel => "Probe:",
        Msg::NotSelected => "Not selected",
        Msg::Rescan => "Rescan",
        Msg::ScanningProbes => "Scanning probes...",
        Msg::Scanning => "Scanning...",
        Msg::ConnectionMode => "Connection mode:",
        Msg::BootNormal => "Normal",
        Msg::BootUnderReset => "Under Reset",
        Msg::BootModeHint => "Normal: boot from main flash (BOOT0=0); Under Reset: keep the target in reset until connected (e.g. booting from system memory with BOOT0 high)",
        Msg::AutoDetectTarget => "Auto-detect Target",
        Msg::AutoDetecting => "Auto-detecting target chip...",
        Msg::Disconnect => "Disconnect",
        Msg::Disconnected => "Disconnected",
        Msg::Connecting => "Connecting to target...",
        Msg::ManualTargetSel => "Manual Target Selection",
        Msg::AutoDetectFailedHint => "(auto-detection failed, select manually)",
        Msg::ManualTargetHint => "DAPLink / CMSIS-DAP probes need manual chip selection",
        Msg::LoadChipFile => "Load Chip File...",
        Msg::LoadingChipFile => "Loading chip description: {}",
        Msg::GenerateFromPack => "Generate from CMSIS Pack...",
        Msg::GeneratingFromPack => "Generating chip description from CMSIS pack: {}",
        Msg::SearchModel => "Search:",
        Msg::SearchHint => "e.g. stm32f103 / nrf52840",
        Msg::SelectedChip => "Selected: {}",
        Msg::Brand => "Brand",
        Msg::Family => "Family",
        Msg::Variant => "Variant",
        Msg::NoMatchingBrand => "No matching brand",
        Msg::NoMatchingFamily => "No matching family",
        Msg::NoMatchingVariant => "No matching variant in this family",
        Msg::SelectFamilyFirst => "Select a chip family on the left first",
        Msg::ConnectByModel => "Connect by Model",
        Msg::ConnectingTo => "Connecting to {} ...",
        Msg::TargetInfo => "Target Info",
        Msg::ChipModel => "Chip: {}",
        Msg::Arch => "Architecture: {}",
        Msg::CoreCount => "Cores: {}",
        Msg::Core => "  Core {}: {}",
        Msg::MemoryMap => "Memory Map:",
        Msg::TargetNotConnected => "Not connected",
        Msg::BrandOther => "Other",
        Msg::BrandArm => "ARM Generic",
        Msg::BrandRiscv => "RISC-V Generic",
        Msg::BrandExternal => "External Pack",
        Msg::AdvancedChipConfig => "Advanced Chip Config",
        Msg::AdvancedChipConfigHint => "Load a local CMSIS Pack (.pack / .pdsc / .zip or unzipped dir), auto-generate chip descriptions, and optionally connect to the target",
        Msg::TgInput => "Input:",
        Msg::TgInputHint => "Pick a .pack / .pdsc / .zip file, or an unzipped directory containing .pdsc",
        Msg::TgBrowseFile => "File...",
        Msg::TgBrowseDir => "Dir...",
        Msg::TgOutputDir => "Output dir:",
        Msg::TgOutputDirHint => "Optional: generated <family>.yaml files will be written here",
        Msg::TgOnlySupported => "Only supported families",
        Msg::TgOnlySupportedHint => "When checked, only targets for probe-rs built-in supported families are kept",
        Msg::TgGenerate => "Generate",
        Msg::TgGenerateConnect => "Generate & Connect",
        Msg::TgGenerating => "Generating target definitions from the CMSIS pack...",
        Msg::TgResult => "Generated families:",
        Msg::TgVariants => "variants",
        Msg::TgInputMissing => "Input path does not exist: {}",
        Msg::TgNoSupportedFamily => "No probe-rs supported family found in the pack (uncheck 'Only supported families' and retry)",
        Msg::TgSerializeFailed => "Failed to serialize family {}: {}",
        Msg::TargetsGenerated => "Generated {} target definition file(s)",
        Msg::TargetFileWritten => "Written: {} ({} variant(s))",
        Msg::TgLoadedToSelection => "Loaded {} chip family(ies) into the manual selection list",
        Msg::FirmwareFlashing => "Firmware Flashing",
        Msg::FirmwareFile => "Firmware file:",
        Msg::FirmwareHint => "Select .elf / .hex / .bin / .uf2 file",
        Msg::Browse => "Browse...",
        Msg::FirmwareImage => "Firmware image",
        Msg::SelectProjectFolder => "Select Project Folder...",
        Msg::ScanningProject => "Scanning project folder and auto-detecting firmware: {}",
        Msg::FileFormat => "File format: {}",
        Msg::BaseAddress => "Base address:",
        Msg::ScanningRoot => "Scanning: {}",
        Msg::ProjectFirmware => "Project firmware:",
        Msg::NoProjectFirmware => "No project firmware",
        Msg::SelectedFirmware => "Selected firmware: {}",
        Msg::ChipEraseBeforeFlash => "Chip erase before flash",
        Msg::VerifyAfterFlash => "Verify after flash",
        Msg::KeepUnwritten => "Keep unwritten bytes",
        Msg::ResetAndRun => "Reset and run after flash",
        Msg::FlashBtn => "Flash",
        Msg::EraseAllBtn => "Erase All",
        Msg::ErasingAll => "Erasing all flash...",
        Msg::ResetTargetBtn => "Reset Target",
        Msg::ResettingTarget => "Resetting target...",
        Msg::ReadFirmwareTitle => "Read Firmware",
        Msg::Range => "Range:",
        Msg::Bytes => "bytes",
        Msg::SizeKb => "Size: {} KB",
        Msg::ReadFirmwareBtn => "Read Firmware...",
        Msg::StartingRead => "Starting read: 0x{} - 0x{}",
        Msg::MemoryViewer => "Memory Viewer",
        Msg::CustomAddress => "Custom address",
        Msg::Region => "Region:",
        Msg::Address => "Address:",
        Msg::BytesCount => "Bytes:",
        Msg::ReadBtn => "Read",
        Msg::NotReadYet => "Not read yet; click 'Read' above",
        Msg::WriteMemory => "Write Memory",
        Msg::Data => "Data:",
        Msg::HexHint => "Hex bytes, e.g. DE AD BE EF",
        Msg::WriteBtn => "Write",
        Msg::RttLog => "RTT Log",
        Msg::StopBtn => "Stop",
        Msg::RttRunning => "● Running",
        Msg::StartBtn => "Start",
        Msg::StartingRtt => "Starting RTT (scanning target RAM for the control block)...",
        Msg::StoppingRtt => "Stopping RTT...",
        Msg::AutoScroll => "Auto-scroll",
        Msg::ShowChannel => "Show channel:",
        Msg::SendChannel => "Send channel:",
        Msg::SendHint => "Type and press Enter or click Send to write to a down channel",
        Msg::LoadedChips => "Loaded {} built-in chip families ({} brands); manual target selection is available",
        Msg::ScanningDebugProbes => "Scanning debug probes...",
        Msg::NoProbes => "No debug probes detected. Check USB connection and drivers",
        Msg::DetectedProbes => "Detected {} debug probe(s)",
        Msg::ConnectedTo => "Connected to target: {}",
        Msg::OperationCompleted => "Operation completed successfully",
        Msg::NoFirmwareFound => "No firmware file (.elf / .hex / .bin / .uf2) found in {}",
        Msg::AutoDetectedFirmware => "Auto-detected firmware: {} ({} candidate(s))",
        Msg::UseOtherFirmware => "To use another firmware, pick one from the dropdown below",
        Msg::ChipFileLoaded => "Chip pack loaded: {} ({} variant(s)); select it manually on the left",
        Msg::PackGenerated => "Generated {} chip family(ies) from CMSIS pack; select them manually on the left",
        Msg::RttStartedSummary => "RTT started ({} up, {} down)",
        Msg::MemoryReadDone => "Memory read: {} bytes",
        Msg::MemoryWritten => "Memory written",
        Msg::UnsupportedFormat => "Unsupported file format. Choose a .elf / .hex / .bin / .uf2 file",
        Msg::FlashingPath => "Flashing: {}",
        Msg::ConnectFirst => "Connect to a target first",
        Msg::ReadLenClamped => "Read length clamped to {} bytes",
        Msg::ReadingMemory => "Reading memory: 0x{}, {} bytes",
        Msg::InvalidHexData => "Invalid data: enter hex bytes (e.g. DE AD BE EF)",
        Msg::WritingMemory => "Writing memory: 0x{}, {} bytes",
        Msg::NotConnectedErr => "Not connected to a target. Auto-detect or select the target first",
        Msg::RttStoppedReconnect => "RTT stopped before reconnecting",
        Msg::RttStoppedFlash => "RTT stopped during flashing",
        Msg::RttStoppedErase => "RTT stopped during erase",
        Msg::RttStoppedRead => "RTT stopped during read",
        Msg::RttStoppedManual => "RTT stopped",
        Msg::NoProbeIndex => "No debug probe with index {} found",
        Msg::OpenProbeFailed => "Failed to open probe: {}",
        Msg::ConnectTargetFailed => "Failed to connect to target {}: {}",
        Msg::AutoDetectFailed => "Auto-detection failed: {}. The probe may not support auto-identification (e.g. DAPLink/CMSIS-DAP). Please search and select the chip model under 'Manual Target Selection' on the left and retry",
        Msg::UnderResetFailed => "Failed to attach under reset: {}. The probe may not support auto-identification (e.g. DAPLink/CMSIS-DAP). Please search and select the chip model under 'Manual Target Selection' on the left and retry",
        Msg::ResetFailed => "Reset failed: {}",
        Msg::ReadFileFailed => "Failed to read file: {}: {}",
        Msg::PackGenFailed => "Failed to generate chip description: {}",
        Msg::PackNoChips => "No usable chips found in the pack",
        Msg::UnsupportedFileFormat => "Unsupported file format: .{}. Choose a .elf / .hex / .bin / .uf2 file",
        Msg::FlashFailed => "Flashing failed: {}",
        Msg::EraseFailed => "Chip erase failed: {}",
        Msg::CreateFileFailed => "Failed to create file: {}",
        Msg::GetCoreFailed => "Failed to get core: {}",
        Msg::ReadFlashFailed => "Failed to read flash (0x{}): {}",
        Msg::WriteFileFailed => "Failed to write file: {}",
        Msg::ReadingFirmware => "Reading firmware: 0x{} - 0x{} ({} KB)",
        Msg::ReadOp => "Read",
        Msg::ReadMemoryFailed => "Failed to read memory (0x{}): {}",
        Msg::WriteMemoryFailed => "Failed to write memory (0x{}): {}",
        Msg::LayoutParsed => "Firmware layout parsed, ready to flash...",
        Msg::StartingOp => "Starting {}...",
        Msg::EraseLabel => "Erase",
        Msg::ProgramLabel => "Program",
        Msg::VerifyLabel => "Verify",
        Msg::FillLabel => "Fill",
        Msg::RttNotConnected => "Not connected to a target. Cannot start RTT",
        Msg::RttCoreFailedStart => "Failed to get core. Cannot start RTT: {}",
        Msg::RttStartedDetected => "RTT started: {} up, {} down channel(s)",
        Msg::RttStartFailed => "Failed to start RTT: {}. Make sure the firmware has initialized RTT and is running",
        Msg::RttCoreFailedStopped => "Failed to get core; RTT stopped: {}",
        Msg::RttReadFailed => "RTT read failed, stopped: {}",
        Msg::RttNotStarted => "RTT not started or not connected",
        Msg::RttCoreFailed => "Failed to get core: {}",
        Msg::RttDownWriteFailed => "RTT down write failed: {}",
        Msg::RttDownBufferFull => "Target down buffer full, some data was not sent",
        Msg::RttNoDownChannel => "Target has no RTT down channel",
    }
}

impl Lang {
    /// Whether the language is English.
    pub fn is_en(&self) -> (b: bool)
        ensures
            b == (*self == Lang::En),
    {
        match self {
            Lang::En => true,
            Lang::Zh => false,
        }
    }

    /// Text of `msg` in this language.
    pub fn tr(&self, msg: Msg) -> (s: &'static str)
        ensures
            s@ == msg_text(*self, msg),
    {
        if self.is_en() {
            en(msg)
        } else {
            zh(msg)
        }
    }
}

/// Every message has a non-empty text in both languages.
pub proof fn lemma_texts_nonempty(m: Msg)
    ensures
        zh_text(m).len() > 0,
        en_text(m).len() > 0,
{
    match m {

        Msg::AppTitle => {
            reveal_strlit("Probe-rs 烧录工具");
            reveal_strlit("Probe-rs Flasher");
        },
        Msg::ConnectedDot => {
            reveal_strlit("● 已连接");
            reveal_strlit("● Connected");
        },
        Msg::NotConnectedDot => {
            reveal_strlit("○ 未连接");
            reveal_strlit("○ Not connected");
        },
        Msg::ThemeSystem => {
            reveal_strlit("跟随系统");
            reveal_strlit("System");
        },
        Msg::ThemeLight => {
            reveal_strlit("浅色");
            reveal_strlit("Light");
        },
        Msg::ThemeDark => {
            reveal_strlit("深色");
            reveal_strlit("Dark");
        },
        Msg::Log => {
            reveal_strlit("日志");
            reveal_strlit("Log");
        },
        Msg::Clear => {
            reveal_strlit("清空");
            reveal_strlit("Clear");
        },
        Msg::LogEntries => {
            reveal_strlit("共 {} 条");
            reveal_strlit("{} entries");
        },
        Msg::Send => {
            reveal_strlit("发送");
            reveal_strlit("Send");
        },
        Msg::All => {
            reveal_strlit("全部");
            reveal_strlit("All");
        },
        Msg::DeviceDetection => {
            reveal_strlit("设备检测");
            reveal_strlit("Device Detection");
        },
        Msg::ProbeLabel => {
            reveal_strlit("调试探针:");
            reveal_strlit("Probe:");
        },
        Msg::NotSelected => {
            reveal_strlit("未选择");
            reveal_strlit("Not selected");
        },
        Msg::Rescan => {
            reveal_strlit("重新扫描");
            reveal_strlit("Rescan");
        },
        Msg::ScanningProbes => {
            reveal_strlit("正在扫描探针...");
            reveal_strlit("Scanning probes...");
        },
        Msg::Scanning => {
            reveal_strlit("扫描中...");
            reveal_strlit("Scanning...");
        },
        Msg::ConnectionMode => {
            reveal_strlit("连接方式:");
            reveal_strlit("Connection mode:");
        },
        Msg::BootNormal => {
            reveal_strlit("正常连接");
            reveal_strlit("Normal");
        },
        Msg::BootUnderReset => {
            reveal_strlit("复位期间连接");
            reveal_strlit("Under Reset");
        },
        Msg::BootModeHint => {
            reveal_strlit("正常连接：从主 Flash 启动（BOOT0=0）；复位期间连接：保持目标复位直至连接完成（常用于 BOOT0 拉高从系统存储器启动等场景）");
            reveal_strlit("Normal: boot from main flash (BOOT0=0); Under Reset: keep the target in reset until connected (e.g. booting from system memory with BOOT0 high)");
        },
        Msg::AutoDetectTarget => {
            reveal_strlit("自动识别目标");
            reveal_strlit("Auto-detect Target");
        },
        Msg::AutoDetecting => {
            reveal_strlit("正在自动识别目标芯片...");
            reveal_strlit("Auto-detecting target chip...");
        },
        Msg::Disconnect => {
            reveal_strlit("断开");
            reveal_strlit("Disconnect");
        },
        Msg::Disconnected => {
            reveal_strlit("已断开连接");
            reveal_strlit("Disconnected");
        },
        Msg::Connecting => {
            reveal_strlit("正在连接目标...");
            reveal_strlit("Connecting to target...");
        },
        Msg::ManualTargetSel => {
            reveal_strlit("手动指定目标芯片");
            reveal_strlit("Manual Target Selection");
        },
        Msg::AutoDetectFailedHint => {
            reveal_strlit("（自动识别失败，请手动选择）");
            reveal_strlit("(auto-detection failed, select manually)");
        },
        Msg::ManualTargetHint => {
            reveal_strlit("DAPLink / CMSIS-DAP 等探针需手动选择芯片型号");
            reveal_strlit("DAPLink / CMSIS-DAP probes need manual chip selection");
        },
        Msg::LoadChipFile => {
            reveal_strlit("加载芯片描述文件...");
            reveal_strlit("Load Chip File...");
        },
        Msg::LoadingChipFile => {
            reveal_strlit("正在加载芯片描述文件: {}");
            reveal_strlit("Loading chip description: {}");
        },
        Msg::GenerateFromPack => {
            reveal_strlit("从 CMSIS 包生成...");
            reveal_strlit("Generate from CMSIS Pack...");
        },
        Msg::GeneratingFromPack => {
            reveal_strlit("正在从 CMSIS 包生成芯片描述: {}");
            reveal_strlit("Generating chip description from CMSIS pack: {}");
        },
        Msg::SearchModel => {
            reveal_strlit("搜索型号:");
            reveal_strlit("Search:");
        },
        Msg::SearchHint => {
            reveal_strlit("如 stm32f103 / nrf52840");
            reveal_strlit("e.g. stm32f103 / nrf52840");
        },
        Msg::SelectedChip => {
            reveal_strlit("已选型号: {}");
            reveal_strlit("Selected: {}");
        },
        Msg::Brand => {
            reveal_strlit("品牌");
            reveal_strlit("Brand");
        },
        Msg::Family => {
            reveal_strlit("系列");
            reveal_strlit("Family");
        },
        Msg::Variant => {
            reveal_strlit("具体型号");
            reveal_strlit("Variant");
        },
        Msg::NoMatchingBrand => {
            reveal_strlit("未找到匹配的品牌");
            reveal_strlit("No matching brand");
        },
        Msg::NoMatchingFamily => {
            reveal_strlit("无匹配系列");
            reveal_strlit("No matching family");
        },
        Msg::NoMatchingVariant => {
            reveal_strlit("该系列下无匹配型号");
            reveal_strlit("No matching variant in this family");
        },
        Msg::SelectFamilyFirst => {
            reveal_strlit("请先在左侧选择芯片系列");
            reveal_strlit("Select a chip family on the left first");
        },
        Msg::ConnectByModel => {
            reveal_strlit("按型号连接");
            reveal_strlit("Connect by Model");
        },
        Msg::ConnectingTo => {
            reveal_strlit("正在连接 {} ...");
            reveal_strlit("Connecting to {} ...");
        },
        Msg::TargetInfo => {
            reveal_strlit("目标信息");
            reveal_strlit("Target Info");
        },
        Msg::ChipModel => {
            reveal_strlit("芯片型号: {}");
            reveal_strlit("Chip: {}");
        },
        Msg::Arch => {
            reveal_strlit("架构: {}");
            reveal_strlit("Architecture: {}");
        },
        Msg::CoreCount => {
            reveal_strlit("核心数量: {}");
            reveal_strlit("Cores: {}");
        },
        Msg::Core => {
            reveal_strlit("  核心 {}: {}");
            reveal_strlit("  Core {}: {}");
        },
        Msg::MemoryMap => {
            reveal_strlit("内存映射:");
            reveal_strlit("Memory Map:");
        },
        Msg::TargetNotConnected => {
            reveal_strlit("尚未连接目标");
            reveal_strlit("Not connected");
        },
        Msg::BrandOther => {
            reveal_strlit("其他");
            reveal_strlit("Other");
        },
        Msg::BrandArm => {
            reveal_strlit("ARM 通用");
            reveal_strlit("ARM Generic");
        },
        Msg::BrandRiscv => {
            reveal_strlit("RISC-V 通用");
            reveal_strlit("RISC-V Generic");
        },
        Msg::BrandExternal => {
            reveal_strlit("外部芯片包");
            reveal_strlit("External Pack");
        },
        Msg::AdvancedChipConfig => {
            reveal_strlit("高级芯片配置");
            reveal_strlit("Advanced Chip Config");
        },
        Msg::AdvancedChipConfigHint => {
            reveal_strlit("加载本地 CMSIS Pack（.pack / .pdsc / .zip 或解压目录），自动生成芯片描述，可直接生成后连接目标");
            reveal_strlit("Load a local CMSIS Pack (.pack / .pdsc / .zip or unzipped dir), auto-generate chip descriptions, and optionally connect to the target");
        },
        Msg::TgInput => {
            reveal_strlit("输入:");
            reveal_strlit("Input:");
        },
        Msg::TgInputHint => {
            reveal_strlit("选择 .pack / .pdsc / .zip 文件，或包含 .pdsc 的解压目录");
            reveal_strlit("Pick a .pack / .pdsc / .zip file, or an unzipped directory containing .pdsc");
        },
        Msg::TgBrowseFile => {
            reveal_strlit("文件...");
            reveal_strlit("File...");
        },
        Msg::TgBrowseDir => {
            reveal_strlit("目录...");
            reveal_strlit("Dir...");
        },
        Msg::TgOutputDir => {
            reveal_strlit("输出目录:");
            reveal_strlit("Output dir:");
        },
        Msg::TgOutputDirHint => {
            reveal_strlit("可选：生成的 <family>.yaml 将写入此目录");
            reveal_strlit("Optional: generated <family>.yaml files will be written here");
        },
        Msg::TgOnlySupported => {
            reveal_strlit("仅生成已支持的芯片族");
            reveal_strlit("Only supported families");
        },
        Msg::TgOnlySupportedHint => {
            reveal_strlit("勾选后仅保留 probe-rs 内置支持芯片族的 target 定义，减少无关文件");
            reveal_strlit("When checked, only targets for probe-rs built-in supported families are kept");
        },
        Msg::TgGenerate => {
            reveal_strlit("生成芯片描述");
            reveal_strlit("Generate");
        },
        Msg::TgGenerateConnect => {
            reveal_strlit("生成并连接");
            reveal_strlit("Generate & Connect");
        },
        Msg::TgGenerating => {
            reveal_strlit("正在从 CMSIS Pack 生成 target 定义，请稍候...");
            reveal_strlit("Generating target definitions from the CMSIS pack...");
        },
        Msg::TgResult => {
            reveal_strlit("已生成的芯片族:");
            reveal_strlit("Generated families:");
        },
        Msg::TgVariants => {
            reveal_strlit("个型号");
            reveal_strlit("variants");
        },
        Msg::TgInputMissing => {
            reveal_strlit("输入路径不存在: {}");
            reveal_strlit("Input path does not exist: {}");
        },
        Msg::TgNoSupportedFamily => {
            reveal_strlit("该包中没有 probe-rs 已支持的芯片族（可取消勾选『仅生成已支持的芯片族』后重试）");
            reveal_strlit("No probe-rs supported family found in the pack (uncheck 'Only supported families' and retry)");
        },
        Msg::TgSerializeFailed => {
            reveal_strlit("序列化芯片族 {} 失败: {}");
            reveal_strlit("Failed to serialize family {}: {}");
        },
        Msg::TargetsGenerated => {
            reveal_strlit("已生成 {} 个 target 定义文件");
            reveal_strlit("Generated {} target definition file(s)");
        },
        Msg::TargetFileWritten => {
            reveal_strlit("已写入: {}（{} 个型号）");
            reveal_strlit("Written: {} ({} variant(s))");
        },
        Msg::TgLoadedToSelection => {
            reveal_strlit("已将 {} 个芯片族加载到手动选型列表");
            reveal_strlit("Loaded {} chip family(ies) into the manual selection list");
        },
        Msg::FirmwareFlashing => {
            reveal_strlit("固件烧录");
            reveal_strlit("Firmware Flashing");
        },
        Msg::FirmwareFile => {
            reveal_strlit("固件文件:");
            reveal_strlit("Firmware file:");
        },
        Msg::FirmwareHint => {
            reveal_strlit("选择 .elf / .hex / .bin / .uf2 文件");
            reveal_strlit("Select .elf / .hex / .bin / .uf2 file");
        },
        Msg::Browse => {
            reveal_strlit("浏览...");
            reveal_strlit("Browse...");
        },
        Msg::FirmwareImage => {
            reveal_strlit("固件镜像");
            reveal_strlit("Firmware image");
        },
        Msg::SelectProjectFolder => {
            reveal_strlit("选择项目文件夹...");
            reveal_strlit("Select Project Folder...");
        },
        Msg::ScanningProject => {
            reveal_strlit("正在扫描项目文件夹并自动识别固件: {}");
            reveal_strlit("Scanning project folder and auto-detecting firmware: {}");
        },
        Msg::FileFormat => {
            reveal_strlit("文件格式: {}");
            reveal_strlit("File format: {}");
        },
        Msg::BaseAddress => {
            reveal_strlit("基地址:");
            reveal_strlit("Base address:");
        },
        Msg::ScanningRoot => {
            reveal_strlit("扫描中: {}");
            reveal_strlit("Scanning: {}");
        },
        Msg::ProjectFirmware => {
            reveal_strlit("项目固件:");
            reveal_strlit("Project firmware:");
        },
        Msg::NoProjectFirmware => {
            reveal_strlit("未选择项目固件");
            reveal_strlit("No project firmware");
        },
        Msg::SelectedFirmware => {
            reveal_strlit("已选择固件: {}");
            reveal_strlit("Selected firmware: {}");
        },
        Msg::ChipEraseBeforeFlash => {
            reveal_strlit("全片擦除后烧录");
            reveal_strlit("Chip erase before flash");
        },
        Msg::VerifyAfterFlash => {
            reveal_strlit("烧录后校验");
            reveal_strlit("Verify after flash");
        },
        Msg::KeepUnwritten => {
            reveal_strlit("保留未写入字节");
            reveal_strlit("Keep unwritten bytes");
        },
        Msg::ResetAndRun => {
            reveal_strlit("烧录后复位运行");
            reveal_strlit("Reset and run after flash");
        },
        Msg::FlashBtn => {
            reveal_strlit("开始烧录");
            reveal_strlit("Flash");
        },
        Msg::EraseAllBtn => {
            reveal_strlit("全片擦除");
            reveal_strlit("Erase All");
        },
        Msg::ErasingAll => {
            reveal_strlit("开始全片擦除...");
            reveal_strlit("Erasing all flash...");
        },
        Msg::ResetTargetBtn => {
            reveal_strlit("复位目标");
            reveal_strlit("Reset Target");
        },
        Msg::ResettingTarget => {
            reveal_strlit("正在复位目标...");
            reveal_strlit("Resetting target...");
        },
        Msg::ReadFirmwareTitle => {
            reveal_strlit("读取固件");
            reveal_strlit("Read Firmware");
        },
        Msg::Range => {
            reveal_strlit("范围:");
            reveal_strlit("Range:");
        },
        Msg::Bytes => {
            reveal_strlit("字节");
            reveal_strlit("bytes");
        },
        Msg::SizeKb => {
            reveal_strlit("大小: {} KB");
            reveal_strlit("Size: {} KB");
        },
        Msg::ReadFirmwareBtn => {
            reveal_strlit("读取固件...");
            reveal_strlit("Read Firmware...");
        },
        Msg::StartingRead => {
            reveal_strlit("开始读取: 0x{} - 0x{}");
            reveal_strlit("Starting read: 0x{} - 0x{}");
        },
        Msg::MemoryViewer => {
            reveal_strlit("内存查看器");
            reveal_strlit("Memory Viewer");
        },
        Msg::CustomAddress => {
            reveal_strlit("自定义地址");
            reveal_strlit("Custom address");
        },
        Msg::Region => {
            reveal_strlit("区域:");
            reveal_strlit("Region:");
        },
        Msg::Address => {
            reveal_strlit("地址:");
            reveal_strlit("Address:");
        },
        Msg::BytesCount => {
            reveal_strlit("字节数:");
            reveal_strlit("Bytes:");
        },
        Msg::ReadBtn => {
            reveal_strlit("读取");
            reveal_strlit("Read");
        },
        Msg::NotReadYet => {
            reveal_strlit("尚未读取，点击上方『读取』");
            reveal_strlit("Not read yet; click 'Read' above");
        },
        Msg::WriteMemory => {
            reveal_strlit("写入内存");
            reveal_strlit("Write Memory");
        },
        Msg::Data => {
            reveal_strlit("数据:");
            reveal_strlit("Data:");
        },
        Msg::HexHint => {
            reveal_strlit("十六进制字节，如 DE AD BE EF");
            reveal_strlit("Hex bytes, e.g. DE AD BE EF");
        },
        Msg::WriteBtn => {
            reveal_strlit("写入");
            reveal_strlit("Write");
        },
        Msg::RttLog => {
            reveal_strlit("RTT 日志");
            reveal_strlit("RTT Log");
        },
        Msg::StopBtn => {
            reveal_strlit("停止");
            reveal_strlit("Stop");
        },
        Msg::RttRunning => {
            reveal_strlit("● 运行中");
            reveal_strlit("● Running");
        },
        Msg::StartBtn => {
            reveal_strlit("启动");
            reveal_strlit("Start");
        },
        Msg::StartingRtt => {
            reveal_strlit("正在启动 RTT（在目标 RAM 中扫描控制块）...");
            reveal_strlit("Starting RTT (scanning target RAM for the control block)...");
        },
        Msg::StoppingRtt => {
            reveal_strlit("正在停止 RTT...");
            reveal_strlit("Stopping RTT...");
        },
        Msg::AutoScroll => {
            reveal_strlit("自动滚动");
            reveal_strlit("Auto-scroll");
        },
        Msg::ShowChannel => {
            reveal_strlit("显示通道:");
            reveal_strlit("Show channel:");
        },
        Msg::SendChannel => {
            reveal_strlit("发送通道:");
            reveal_strlit("Send channel:");
        },
        Msg::SendHint => {
            reveal_strlit("输入内容后回车或点击发送，写入目标下行通道");
            reveal_strlit("Type and press Enter or click Send to write to a down channel");
        },
        Msg::LoadedChips => {
            reveal_strlit("已加载 {} 个内置芯片系列（{} 个品牌），可手动指定目标");
            reveal_strlit("Loaded {} built-in chip families ({} brands); manual target selection is available");
        },
        Msg::ScanningDebugProbes => {
            reveal_strlit("正在扫描调试探针...");
            reveal_strlit("Scanning debug probes...");
        },
        Msg::NoProbes => {
            reveal_strlit("未检测到任何调试探针，请检查 USB 连接与驱动");
            reveal_strlit("No debug probes detected. Check USB connection and drivers");
        },
        Msg::DetectedProbes => {
            reveal_strlit("检测到 {} 个调试探针");
            reveal_strlit("Detected {} debug probe(s)");
        },
        Msg::ConnectedTo => {
            reveal_strlit("已连接目标: {}");
            reveal_strlit("Connected to target: {}");
        },
        Msg::OperationCompleted => {
            reveal_strlit("操作成功完成");
            reveal_strlit("Operation completed successfully");
        },
        Msg::NoFirmwareFound => {
            reveal_strlit("在 {} 中未找到固件文件 (.elf / .hex / .bin / .uf2)");
            reveal_strlit("No firmware file (.elf / .hex / .bin / .uf2) found in {}");
        },
        Msg::AutoDetectedFirmware => {
            reveal_strlit("自动识别到固件: {}（共 {} 个候选）");
            reveal_strlit("Auto-detected firmware: {} ({} candidate(s))");
        },
        Msg::UseOtherFirmware => {
            reveal_strlit("如需使用其它固件，请在下方下拉列表中选择");
            reveal_strlit("To use another firmware, pick one from the dropdown below");
        },
        Msg::ChipFileLoaded => {
            reveal_strlit("已加载芯片包: {}（{} 个型号），可在左侧手动选择");
            reveal_strlit("Chip pack loaded: {} ({} variant(s)); select it manually on the left");
        },
        Msg::PackGenerated => {
            reveal_strlit("已从 CMSIS 包生成 {} 个芯片族，可在左侧手动选择");
            reveal_strlit("Generated {} chip family(ies) from CMSIS pack; select them manually on the left");
        },
        Msg::RttStartedSummary => {
            reveal_strlit("RTT 已启动（上行 {}，下行 {}）");
            reveal_strlit("RTT started ({} up, {} down)");
        },
        Msg::MemoryReadDone => {
            reveal_strlit("读取内存完成: {} 字节");
            reveal_strlit("Memory read: {} bytes");
        },
        Msg::MemoryWritten => {
            reveal_strlit("内存写入完成");
            reveal_strlit("Memory written");
        },
        Msg::UnsupportedFormat => {
            reveal_strlit("不支持的文件格式，请选择 .elf / .hex / .bin / .uf2 文件");
            reveal_strlit("Unsupported file format. Choose a .elf / .hex / .bin / .uf2 file");
        },
        Msg::FlashingPath => {
            reveal_strlit("开始烧录: {}");
            reveal_strlit("Flashing: {}");
        },
        Msg::ConnectFirst => {
            reveal_strlit("请先连接目标芯片");
            reveal_strlit("Connect to a target first");
        },
        Msg::ReadLenClamped => {
            reveal_strlit("读取长度已限制为 {} 字节");
            reveal_strlit("Read length clamped to {} bytes");
        },
        Msg::ReadingMemory => {
            reveal_strlit("正在读取内存: 0x{}，{} 字节");
            reveal_strlit("Reading memory: 0x{}, {} bytes");
        },
        Msg::InvalidHexData => {
            reveal_strlit("数据格式错误：请输入十六进制字节（如 DE AD BE EF）");
            reveal_strlit("Invalid data: enter hex bytes (e.g. DE AD BE EF)");
        },
        Msg::WritingMemory => {
            reveal_strlit("正在写入内存: 0x{}，{} 字节");
            reveal_strlit("Writing memory: 0x{}, {} bytes");
        },
        Msg::NotConnectedErr => {
            reveal_strlit("尚未连接到目标芯片，请先自动识别目标");
            reveal_strlit("Not connected to a target. Auto-detect or select the target first");
        },
        Msg::RttStoppedReconnect => {
            reveal_strlit("重新连接前已停止 RTT");
            reveal_strlit("RTT stopped before reconnecting");
        },
        Msg::RttStoppedFlash => {
            reveal_strlit("烧录期间已停止 RTT");
            reveal_strlit("RTT stopped during flashing");
        },
        Msg::RttStoppedErase => {
            reveal_strlit("擦除期间已停止 RTT");
            reveal_strlit("RTT stopped during erase");
        },
        Msg::RttStoppedRead => {
            reveal_strlit("读取期间已停止 RTT");
            reveal_strlit("RTT stopped during read");
        },
        Msg::RttStoppedManual => {
            reveal_strlit("RTT 已停止");
            reveal_strlit("RTT stopped");
        },
        Msg::NoProbeIndex => {
            reveal_strlit("未找到编号为 {} 的调试探针");
            reveal_strlit("No debug probe with index {} found");
        },
        Msg::OpenProbeFailed => {
            reveal_strlit("打开探针失败: {}");
            reveal_strlit("Failed to open probe: {}");
        },
        Msg::ConnectTargetFailed => {
            reveal_strlit("连接目标 {} 失败: {}");
            reveal_strlit("Failed to connect to target {}: {}");
        },
        Msg::AutoDetectFailed => {
            reveal_strlit("自动识别目标失败: {}。该探针可能不支持自动识别芯片（如 DAPLink/CMSIS-DAP），请在左侧『手动指定目标芯片』中搜索并选择芯片型号后重试");
            reveal_strlit("Auto-detection failed: {}. The probe may not support auto-identification (e.g. DAPLink/CMSIS-DAP). Please search and select the chip model under 'Manual Target Selection' on the left and retry");
        },
        Msg::UnderResetFailed => {
            reveal_strlit("复位期间连接目标失败: {}。该探针可能不支持自动识别芯片（如 DAPLink/CMSIS-DAP），请在左侧『手动指定目标芯片』中搜索并选择芯片型号后重试");
            reveal_strlit("Failed to attach under reset: {}. The probe may not support auto-identification (e.g. DAPLink/CMSIS-DAP). Please search and select the chip model under 'Manual Target Selection' on the left and retry");
        },
        Msg::ResetFailed => {
            reveal_strlit("复位失败: {}");
            reveal_strlit("Reset failed: {}");
        },
        Msg::ReadFileFailed => {
            reveal_strlit("读取文件失败: {}: {}");
            reveal_strlit("Failed to read file: {}: {}");
        },
        Msg::PackGenFailed => {
            reveal_strlit("生成芯片描述失败: {}");
            reveal_strlit("Failed to generate chip description: {}");
        },
        Msg::PackNoChips => {
            reveal_strlit("未在包中找到可用芯片");
            reveal_strlit("No usable chips found in the pack");
        },
        Msg::UnsupportedFileFormat => {
            reveal_strlit("不支持的文件格式: .{}，请选择 .elf / .hex / .bin / .uf2 文件");
            reveal_strlit("Unsupported file format: .{}. Choose a .elf / .hex / .bin / .uf2 file");
        },
        Msg::FlashFailed => {
            reveal_strlit("烧录失败: {}");
            reveal_strlit("Flashing failed: {}");
        },
        Msg::EraseFailed => {
            reveal_strlit("全片擦除失败: {}");
            reveal_strlit("Chip erase failed: {}");
        },
        Msg::CreateFileFailed => {
            reveal_strlit("创建文件失败: {}");
            reveal_strlit("Failed to create file: {}");
        },
        Msg::GetCoreFailed => {
            reveal_strlit("获取核心失败: {}");
            reveal_strlit("Failed to get core: {}");
        },
        Msg::ReadFlashFailed => {
            reveal_strlit("读取 Flash 失败 (0x{}): {}");
            reveal_strlit("Failed to read flash (0x{}): {}");
        },
        Msg::WriteFileFailed => {
            reveal_strlit("写入文件失败: {}");
            reveal_strlit("Failed to write file: {}");
        },
        Msg::ReadingFirmware => {
            reveal_strlit("开始读取固件: 0x{} - 0x{}（{} KB）");
            reveal_strlit("Reading firmware: 0x{} - 0x{} ({} KB)");
        },
        Msg::ReadOp => {
            reveal_strlit("读取");
            reveal_strlit("Read");
        },
        Msg::ReadMemoryFailed => {
            reveal_strlit("读取内存失败 (0x{}): {}");
            reveal_strlit("Failed to read memory (0x{}): {}");
        },
        Msg::WriteMemoryFailed => {
            reveal_strlit("写入内存失败 (0x{}): {}");
            reveal_strlit("Failed to write memory (0x{}): {}");
        },
        Msg::LayoutParsed => {
            reveal_strlit("已解析固件布局，准备烧录...");
            reveal_strlit("Firmware layout parsed, ready to flash...");
        },
        Msg::StartingOp => {
            reveal_strlit("开始{}...");
            reveal_strlit("Starting {}...");
        },
        Msg::EraseLabel => {
            reveal_strlit("擦除");
            reveal_strlit("Erase");
        },
        Msg::ProgramLabel => {
            reveal_strlit("编程");
            reveal_strlit("Program");
        },
        Msg::VerifyLabel => {
            reveal_strlit("校验");
            reveal_strlit("Verify");
        },
        Msg::FillLabel => {
            reveal_strlit("填充");
            reveal_strlit("Fill");
        },
        Msg::RttNotConnected => {
            reveal_strlit("尚未连接目标，无法启动 RTT");
            reveal_strlit("Not connected to a target. Cannot start RTT");
        },
        Msg::RttCoreFailedStart => {
            reveal_strlit("获取核心失败，无法启动 RTT: {}");
            reveal_strlit("Failed to get core. Cannot start RTT: {}");
        },
        Msg::RttStartedDetected => {
            reveal_strlit("RTT 已启动，检测到 {} 个上行、{} 个下行通道");
            reveal_strlit("RTT started: {} up, {} down channel(s)");
        },
        Msg::RttStartFailed => {
            reveal_strlit("启动 RTT 失败: {}。请确认固件已初始化 RTT 且目标程序正在运行");
            reveal_strlit("Failed to start RTT: {}. Make sure the firmware has initialized RTT and is running");
        },
        Msg::RttCoreFailedStopped => {
            reveal_strlit("获取核心失败，RTT 已停止: {}");
            reveal_strlit("Failed to get core; RTT stopped: {}");
        },
        Msg::RttReadFailed => {
            reveal_strlit("RTT 读取失败，已停止: {}");
            reveal_strlit("RTT read failed, stopped: {}");
        },
        Msg::RttNotStarted => {
            reveal_strlit("RTT 未启动或未连接目标");
            reveal_strlit("RTT not started or not connected");
        },
        Msg::RttCoreFailed => {
            reveal_strlit("获取核心失败: {}");
            reveal_strlit("Failed to get core: {}");
        },
        Msg::RttDownWriteFailed => {
            reveal_strlit("RTT 下行写入失败: {}");
            reveal_strlit("RTT down write failed: {}");
        },
        Msg::RttDownBufferFull => {
            reveal_strlit("目标下行缓冲区已满，部分数据未发送");
            reveal_strlit("Target down buffer full, some data was not sent");
        },
        Msg::RttNoDownChannel => {
            reveal_strlit("目标未配置 RTT 下行通道");
            reveal_strlit("Target has no RTT down channel");
        },
    }
}


/// The result of filling the placeholders of `template` with `args`: the
/// template is read from left to right, each `{}` is replaced by the next
/// argument, and once the arguments run out the rest of the template is kept
/// as it stands.
pub open spec fn filled(template: Seq<char>, args: Seq<Seq<char>>) -> Seq<char>
    decreases template.len(),
{
    if template.len() >= 2 && template[0] == '{' && template[1] == '}' {
        if args.len() == 0 {
            template
        } else {
            args[0] + filled(template.skip(2), args.drop_first())
        }
    } else if template.len() == 0 {
        template
    } else {
        seq![template[0]] + filled(template.drop_first(), args)
    }
}

/// Fills the `{}` placeholders of `template` (a text from [`Lang::tr`]) with
/// `args` in order.
pub fn fill(template: &str, args: &[String]) -> (out: String)
    ensures
        out@ == filled(template@, views(args@)),
{
    let t = chars_of(template);
    let ghost a = views(args@);
    let mut out = String::new();
    let mut i: usize = 0;
    let mut k: usize = 0;
    assert(t@.skip(0) =~= t@);
    assert(a.skip(0) =~= a);
    assert(out@ + filled(t@, a) =~= filled(t@, a));
    while i < t.len()
        invariant
            i <= t.len(),
            k <= args@.len(),
            t@ == template@,
            a == views(args@),
            filled(t@, a) == out@ + filled(t@.skip(i as int), a.skip(k as int)),
        decreases t.len() - i,
    {
        let ghost rest = t@.skip(i as int);
        if i + 1 < t.len() && t[i] == '{' && t[i + 1] == '}' {
            if k < args.len() {
                let arg = chars_of(args[k].as_str());
                let ghost before = out@;
                push_chars(&mut out, &arg, 0, arg.len());
                proof {
                    assert(before + (a.skip(k as int)[0] + filled(rest.skip(2), a.skip(k as int).drop_first()))
                        =~= out@ + filled(rest.skip(2), a.skip(k as int).drop_first()));
                    assert(arg@.subrange(0, arg@.len() as int) == arg@);
                    assert(a.skip(k as int)[0] == args@[k as int]@);
                    assert(a.skip(k as int).drop_first() =~= a.skip(k + 1));
                    assert(rest.skip(2) =~= t@.skip(i + 2));
                }
                k = k + 1;
                i = i + 2;
            } else {
                push_chars(&mut out, &t, i, t.len());
                proof {
                    assert(a.skip(k as int).len() == 0);
                    assert(t@.subrange(i as int, t@.len() as int) =~= rest);
                }
                return out;
            }
        } else {
            let ghost before = out@;
            push_char(&mut out, t[i]);
            proof {
                assert(rest.drop_first() =~= t@.skip(i + 1));
                assert(rest[0] == t@[i as int]);
                assert(before + (seq![rest[0]] + filled(rest.drop_first(), a.skip(k as int)))
                    =~= out@ + filled(rest.drop_first(), a.skip(k as int)));
            }
            i = i + 1;
        }
    }
    proof {
        assert(t@.skip(i as int).len() == 0);
        assert(out@ + seq![] =~= out@);
    }
    out
}

/// Filling a template with no arguments leaves it unchanged.
pub proof fn lemma_fill_without_args(template: Seq<char>)
    ensures
        filled(template, seq![]) == template,
    decreases template.len(),
{
    if template.len() >= 2 && template[0] == '{' && template[1] == '}' {
    } else if template.len() > 0 {
        lemma_fill_without_args(template.drop_first());
        assert(seq![template[0]] + template.drop_first() =~= template);
    }
}


/// Number of `{}` placeholders in `s` from position `i` on, read left to
/// right.
pub open spec fn placeholders_from(s: Seq<char>, i: int) -> nat
    decreases s.len() - i,
{
    if i < 0 || i >= s.len() {
        0
    } else if i + 1 < s.len() && s[i] == '{' && s[i + 1] == '}' {
        1 + placeholders_from(s, i + 2)
    } else {
        placeholders_from(s, i + 1)
    }
}

/// Number of `{}` placeholders in `s`, read left to right.
pub open spec fn placeholders(s: Seq<char>) -> nat {
    placeholders_from(s, 0)
}

/// [`lemma_same_placeholders`] for the messages AppTitle to ThemeLight.
#[verifier::spinoff_prover]
#[verifier::rlimit(100)]
proof fn lemma_same_placeholders_0(m: Msg)
    requires
        m is AppTitle || m is ConnectedDot || m is NotConnectedDot || m is ThemeSystem || m is ThemeLight,
    ensures
        placeholders(zh_text(m)) == placeholders(en_text(m)),
{
    reveal_with_fuel(placeholders_from, 18);
    match m {
        Msg::AppTitle => {
            reveal_strlit("Probe-rs 烧录工具");
            reveal_strlit("Probe-rs Flasher");
            assert(placeholders(zh_text(m)) == 0);
            assert(placeholders(en_text(m)) == 0);
        },
        Msg::ConnectedDot => {
            reveal_strlit("● 已连接");
            reveal_strlit("● Connected");
            assert(placeholders(zh_text(m)) == 0);
            assert(placeholders(en_text(m)) == 0);
        },
        Msg::NotConnectedDot => {
            reveal_strlit("○ 未连接");
            reveal_strlit("○ Not connected");
            assert(placeholders(zh_text(m)) == 0);
            assert(placeholders(en_text(m)) == 0);
        },
        Msg::ThemeSystem => {
            reveal_strlit("跟随系统");
            reveal_strlit("System");
            assert(placeholders(zh_text(m)) == 0);
            assert(placeholders(en_text(m)) == 0);
        },
        Msg::ThemeLight => {
            reveal_strlit("浅色");
            reveal_strlit("Light");
            assert(placeholders(zh_text(m)) == 0);
            assert(placeholders(en_text(m)) == 0);
        },
        _ => {},
    }
}

/// [`lemma_same_placeholders`] for the messages ThemeDark to Send.
#[verifier::spinoff_prover]
#[verifier::rlimit(100)]
proof fn lemma_same_placeholders_1(m: Msg)
    requires
        m is ThemeDark || m is Log || m is Clear || m is LogEntries || m is Send,
    ensures
        placeholders(zh_text(m)) == placeholders(en_text(m)),
{
    reveal_with_fuel(placeholders_from, 18);
    match m {
        Msg::ThemeDark => {
            reveal_strlit("深色");
            reveal_strlit("Dark");
            assert(placeholders(zh_text(m)) == 0);
            assert(placeholders(en_text(m)) == 0);
        },
        Msg::Log => {
            reveal_strlit("日志");
            reveal_strlit("Log");
            assert(placeholders(zh_text(m)) == 0);
            assert(placeholders(en_text(m)) == 0);
        },
        Msg::Clear => {
            reveal_strlit("清空");
            reveal_strlit("Clear");
            assert(placeholders(zh_text(m)) == 0);
            assert(placeholders(en_text(m)) == 0);
        },
        Msg::LogEntries => {
            reveal_strlit("共 {} 条");
            reveal_strlit("{} entries");
            assert(placeholders(zh_text(m)) == 1);
            assert(placeholders(en_text(m)) == 1);
        },
        Msg::Send => {
            reveal_strlit("发送");
            reveal_strlit("Send");
            assert(placeholders(zh_text(m)) == 0);
            assert(placeholders(en_text(m)) == 0);
        },
        _ => {},
    }
}

/// [`lemma_same_placeholders`] for the messages All to Rescan.
#[verifier::spinoff_prover]
#[verifier::rlimit(100)]
proof fn lemma_same_placeholders_2(m: Msg)
    requires
        m is All || m is DeviceDetection || m is ProbeLabel || m is NotSelected || m is Rescan,
    ensures
        placeholders(zh_text(m)) == placeholders(en_text(m)),
{
    reveal_with_fuel(placeholders_from, 18);
    match m {
        Msg::All => {
            reveal_strlit("全部");
            reveal_strlit("All");
            assert(placeholders(zh_text(m)) == 0);
            assert(placeholders(en_text(m)) == 0);
        },
        Msg::DeviceDetection => {
            reveal_strlit("设备检测");
            reveal_strlit("Device Detection");
            assert(placeholders(zh_text(m)) == 0);
            assert(placeholders(en_text(m)) == 0);
        },
        Msg::ProbeLabel => {
            reveal_strlit("调试探针:");
            reveal_strlit("Probe:");
            assert(placeholders(zh_text(m)) == 0);
            assert(placeholders(en_text(m)) == 0);
        },
        Msg::NotSelected => {
            reveal_strlit("未选择");
            reveal_strlit("Not selected");
            assert(placeholders(zh_text(m)) == 0);
            assert(placeholders(en_text(m)) == 0);
        },
        Msg::Rescan => {
            reveal_strlit("重新扫描");
            reveal_strlit("Rescan");
            assert(placeholders(zh_text(m)) == 0);
            assert(placeholders(en_text(m)) == 0);
        },
        _ => {},
    }
}

/// [`lemma_same_placeholders`] for the messages ScanningProbes to BootUnderReset.
#[verifier::spinoff_prover]
#[verifier::rlimit(100)]
proof fn lemma_same_placeholders_3(m: Msg)
    requires
        m is ScanningProbes || m is Scanning || m is ConnectionMode || m is BootNormal || m is BootUnderReset,
    ensures
        placeholders(zh_text(m)) == placeholders(en_text(m)),
{
    reveal_with_fuel(placeholders_from, 18);
    match m {
        Msg::ScanningProbes => {
            reveal_strlit("正在扫描探针...");
            reveal_strlit("Scanning probes...");
            assert(placeholders(zh_text(m)) == 0);
            assert(placeholders_from(en_text(m), 16) == 0);
            assert(placeholders(en_text(m)) == 0);
        },
        Msg::Scanning => {
            reveal_strlit("扫描中...");
            reveal_strlit("Scanning...");
            assert(placeholders(zh_text(m)) == 0);
            assert(placeholders(en_text(m)) == 0);
        },
        Msg::ConnectionMode => {
            reveal_strlit("连接方式:");
            reveal_strlit("Connection mode:");
            assert(placeholders(zh_text(m)) == 0);
            assert(placeholders(en_text(m)) == 0);
        },
        Msg::BootNormal => {
            reveal_strlit("正常连接");
            reveal_strlit("Normal");
            assert(placeholders(zh_text(m)) == 0);
            assert(placeholders(en_text(m)) == 0);
        },
        Msg::BootUnderReset => {
            reveal_strlit("复位期间连接");
            reveal_strlit("Under Reset");
            assert(placeholders(zh_text(m)) == 0);
            assert(placeholders(en_text(m)) == 0);
        },
        _ => {},
    }
}

/// [`lemma_same_placeholders`] for the messages BootModeHint to Disconnected.
#[verifier::spinoff_prover]
#[verifier::rlimit(100)]
proof fn lemma_same_placeholders_4(m: Msg)
    requires
        m is BootModeHint || m is AutoDetectTarget || m is AutoDetecting || m is Disconnect || m is Disconnected,
    ensures
        placeholders(zh_text(m)) == placeholders(en_text(m)),
{
    reveal_with_fuel(placeholders_from, 18);
    match m {
        Msg::BootModeHint => {
            reveal_strlit("正常连接：从主 Flash 启动（BOOT0=0）；复位期间连接：保持目标复位直至连接完成（常用于 BOOT0 拉高从系统存储器启动等场景）");
            reveal_strlit("Normal: boot from main flash (BOOT0=0); Under Reset: keep the target in reset until connected (e.g. booting from system memory with BOOT0 high)");
            assert(placeholders_from(zh_text(m), 64) == 0);
            assert(placeholders_from(zh_text(m), 48) == 0);
            assert(placeholders_from(zh_text(m), 32) == 0);
            assert(placeholders_from(zh_text(m), 16) == 0);
            assert(placeholders(zh_text(m)) == 0);
            assert(placeholders_from(en_text(m), 128) == 0);
            assert(placeholders_from(en_text(m), 112) == 0);
            assert(placeholders_from(en_text(m), 96) == 0);
            assert(placeholders_from(en_text(m), 80) == 0);
            assert(placeholders_from(en_text(m), 64) == 0);
            assert(placeholders_from(en_text(m), 48) == 0);
            assert(placeholders_from(en_text(m), 32) == 0);
            assert(placeholders_from(en_text(m), 16) == 0);
            assert(placeholders(en_text(m)) == 0);
        },
        Msg::AutoDetectTarget => {
            reveal_strlit("自动识别目标");
            reveal_strlit("Auto-detect Target");
            assert(placeholders(zh_text(m)) == 0);
            assert(placeholders_from(en_text(m), 16) == 0);
            assert(placeholders(en_text(m)) == 0);
        },
        Msg::AutoDetecting => {
            reveal_strlit("正在自动识别目标芯片...");
            reveal_strlit("Auto-detecting target chip...");
            assert(placeholders(zh_text(m)) == 0);
            assert(placeholders_from(en_text(m), 16) == 0);
            assert(placeholders(en_text(m)) == 0);
        },
        Msg::Disconnect => {
            reveal_strlit("断开");
            reveal_strlit("Disconnect");
            assert(placeholders(zh_text(m)) == 0);
            assert(placeholders(en_text(m)) == 0);
        },
        Msg::Disconnected => {
            reveal_strlit("已断开连接");
            reveal_strlit("Disconnected");
            assert(placeholders(zh_text(m)) == 0);
            assert(placeholders(en_text(m)) == 0);
        },
        _ => {},
    }
}

/// [`lemma_same_placeholders`] for the messages Connecting to LoadChipFile.
#[verifier::spinoff_prover]
#[verifier::rlimit(100)]
proof fn lemma_same_placeholders_5(m: Msg)
    requires
        m is Connecting || m is ManualTargetSel || m is AutoDetectFailedHint || m is ManualTargetHint || m is LoadChipFile,
    ensures
        placeholders(zh_text(m)) == placeholders(en_text(m)),
{
    reveal_with_fuel(placeholders_from, 18);
    match m {
        Msg::Connecting => {
            reveal_strlit("正在连接目标...");
            reveal_strlit("Connecting to target...");
            assert(placeholders(zh_text(m)) == 0);
            assert(placeholders_from(en_text(m), 16) == 0);
            assert(placeholders(en_text(m)) == 0);
        },
        Msg::ManualTargetSel => {
            reveal_strlit("手动指定目标芯片");
            reveal_strlit("Manual Target Selection");
            assert(placeholders(zh_text(m)) == 0);
            assert(placeholders_from(en_text(m), 16) == 0);
            assert(placeholders(en_text(m)) == 0);
        },
        Msg::AutoDetectFailedHint => {
            reveal_strlit("（自动识别失败，请手动选择）");
            reveal_strlit("(auto-detection failed, select manually)");
            assert(placeholders(zh_text(m)) == 0);
            assert(placeholders_from(en_text(m), 32) == 0);
            assert(placeholders_from(en_text(m), 16) == 0);
            assert(placeholders(en_text(m)) == 0);
        },
        Msg::ManualTargetHint => {
            reveal_strlit("DAPLink / CMSIS-DAP 等探针需手动选择芯片型号");
            reveal_strlit("DAPLink / CMSIS-DAP probes need manual chip selection");
            assert(placeholders_from(zh_text(m), 16) == 0);
            assert(placeholders(zh_text(m)) == 0);
            assert(placeholders_from(en_text(m), 48) == 0);
            assert(placeholders_from(en_text(m), 32) == 0);
            assert(placeholders_from(en_text(m), 16) == 0);
            assert(placeholders(en_text(m)) == 0);
        },
        Msg::LoadChipFile => {
            reveal_strlit("加载芯片描述文件...");
            reveal_strlit("Load Chip File...");
            assert(placeholders(zh_text(m)) == 0);
            assert(placeholders_from(en_text(m), 16) == 0);
            assert(placeholders(en_text(m)) == 0);
        },
        _ => {},
    }
}

/// [`lemma_same_placeholders`] for the messages LoadingChipFile to SearchHint.
#[verifier::spinoff_prover]
#[verifier::rlimit(100)]
proof fn lemma_same_placeholders_6(m: Msg)
    requires
        m is LoadingChipFile || m is GenerateFromPack || m is GeneratingFromPack || m is SearchModel || m is SearchHint,
    ensures
        placeholders(zh_text(m)) == placeholders(en_text(m)),
{
    reveal_with_fuel(placeholders_from, 18);
    match m {
        Msg::LoadingChipFile => {
            reveal_strlit("正在加载芯片描述文件: {}");
            reveal_strlit("Loading chip description: {}");
            assert(placeholders(zh_text(m)) == 1);
            assert(placeholders_from(en_text(m), 16) == 1);
            assert(placeholders(en_text(m)) == 1);
        },
        Msg::GenerateFromPack => {
            reveal_strlit("从 CMSIS 包生成...");
            reveal_strlit("Generate from CMSIS Pack...");
            assert(placeholders(zh_text(m)) == 0);
            assert(placeholders_from(en_text(m), 16) == 0);
            assert(placeholders(en_text(m)) == 0);
        },
        Msg::GeneratingFromPack => {
            reveal_strlit("正在从 CMSIS 包生成芯片描述: {}");
            reveal_strlit("Generating chip description from CMSIS pack: {}");
            assert(placeholders_from(zh_text(m), 16) == 1);
            assert(placeholders(zh_text(m)) == 1);
            assert(placeholders_from(en_text(m), 32) == 1);
            assert(placeholders_from(en_text(m), 16) == 1);
            assert(placeholders(en_text(m)) == 1);
        },
        Msg::SearchModel => {
            reveal_strlit("搜索型号:");
            reveal_strlit("Search:");
            assert(placeholders(zh_text(m)) == 0);
            assert(placeholders(en_text(m)) == 0);
        },
        Msg::SearchHint => {
            reveal_strlit("如 stm32f103 / nrf52840");
            reveal_strlit("e.g. stm32f103 / nrf52840");
            assert(placeholders_from(zh_text(m), 16) == 0);
            assert(placeholders(zh_text(m)) == 0);
            assert(placeholders_from(en_text(m), 16) == 0);
            assert(placeholders(en_text(m)) == 0);
        },
        _ => {},
    }
}

/// [`lemma_same_placeholders`] for the messages SelectedChip to NoMatchingBrand.
#[verifier::spinoff_prover]
#[verifier::rlimit(100)]
proof fn lemma_same_placeholders_7(m: Msg)
    requires
        m is SelectedChip || m is Brand || m is Family || m is Variant || m is NoMatchingBrand,
    ensures
        placeholders(zh_text(m)) == placeholders(en_text(m)),
{
    reveal_with_fuel(placeholders_from, 18);
    match m {
        Msg::SelectedChip => {
            reveal_strlit("已选型号: {}");
            reveal_strlit("Selected: {}");
            assert(placeholders(zh_text(m)) == 1);
            assert(placeholders(en_text(m)) == 1);
        },
        Msg::Brand => {
            reveal_strlit("品牌");
            reveal_strlit("Brand");
            assert(placeholders(zh_text(m)) == 0);
            assert(placeholders(en_text(m)) == 0);
        },
        Msg::Family => {
            reveal_strlit("系列");
            reveal_strlit("Family");
            assert(placeholders(zh_text(m)) == 0);
            assert(placeholders(en_text(m)) == 0);
        },
        Msg::Variant => {
            reveal_strlit("具体型号");
            reveal_strlit("Variant");
            assert(placeholders(zh_text(m)) == 0);
            assert(placeholders(en_text(m)) == 0);
        },
        Msg::NoMatchingBrand => {
            reveal_strlit("未找到匹配的品牌");
            reveal_strlit("No matching brand");
            assert(placeholders(zh_text(m)) == 0);
            assert(placeholders_from(en_text(m), 16) == 0);
            assert(placeholders(en_text(m)) == 0);
        },
        _ => {},
    }
}

/// [`lemma_same_placeholders`] for the messages NoMatchingFamily to ConnectingTo.
#[verifier::spinoff_prover]
#[verifier::rlimit(100)]
proof fn lemma_same_placeholders_8(m: Msg)
    requires
        m is NoMatchingFamily || m is NoMatchingVariant || m is SelectFamilyFirst || m is ConnectByModel || m is ConnectingTo,
    ensures
        placeholders(zh_text(m)) == placeholders(en_text(m)),
{
    reveal_with_fuel(placeholders_from, 18);
    match m {
        Msg::NoMatchingFamily => {
            reveal_strlit("无匹配系列");
            reveal_strlit("No matching family");
            assert(placeholders(zh_text(m)) == 0);
            assert(placeholders_from(en_text(m), 16) == 0);
            assert(placeholders(en_text(m)) == 0);
        },
        Msg::NoMatchingVariant => {
            reveal_strlit("该系列下无匹配型号");
            reveal_strlit("No matching variant in this family");
            assert(placeholders(zh_text(m)) == 0);
            assert(placeholders_from(en_text(m), 32) == 0);
            assert(placeholders_from(en_text(m), 16) == 0);
            assert(placeholders(en_text(m)) == 0);
        },
        Msg::SelectFamilyFirst => {
            reveal_strlit("请先在左侧选择芯片系列");
            reveal_strlit("Select a chip family on the left first");
            assert(placeholders(zh_text(m)) == 0);
            assert(placeholders_from(en_text(m), 32) == 0);
            assert(placeholders_from(en_text(m), 16) == 0);
            assert(placeholders(en_text(m)) == 0);
        },
        Msg::ConnectByModel => {
            reveal_strlit("按型号连接");
            reveal_strlit("Connect by Model");
            assert(placeholders(zh_text(m)) == 0);
            assert(placeholders(en_text(m)) == 0);
        },
        Msg::ConnectingTo => {
            reveal_strlit("正在连接 {} ...");
            reveal_strlit("Connecting to {} ...");
            assert(placeholders(zh_text(m)) == 1);
            assert(placeholders_from(en_text(m), 16) == 0);
            assert(placeholders(en_text(m)) == 1);
        },
        _ => {},
    }
}

/// [`lemma_same_placeholders`] for the messages TargetInfo to Core.
#[verifier::spinoff_prover]
#[verifier::rlimit(100)]
proof fn lemma_same_placeholders_9(m: Msg)
    requires
        m is TargetInfo || m is ChipModel || m is Arch || m is CoreCount || m is Core,
    ensures
        placeholders(zh_text(m)) == placeholders(en_text(m)),
{
    reveal_with_fuel(placeholders_from, 18);
    match m {
        Msg::TargetInfo => {
            reveal_strlit("目标信息");
            reveal_strlit("Target Info");
            assert(placeholders(zh_text(m)) == 0);
            assert(placeholders(en_text(m)) == 0);
        },
        Msg::ChipModel => {
            reveal_strlit("芯片型号: {}");
            reveal_strlit("Chip: {}");
            assert(placeholders(zh_text(m)) == 1);
            assert(placeholders(en_text(m)) == 1);
        },
        Msg::Arch => {
            reveal_strlit("架构: {}");
            reveal_strlit("Architecture: {}");
            assert(placeholders(zh_text(m)) == 1);
            assert(placeholders(en_text(m)) == 1);
        },
        Msg::CoreCount => {
            reveal_strlit("核心数量: {}");
            reveal_strlit("Cores: {}");
            assert(placeholders(zh_text(m)) == 1);
            assert(placeholders(en_text(m)) == 1);
        },
        Msg::Core => {
            reveal_strlit("  核心 {}: {}");
            reveal_strlit("  Core {}: {}");
            assert(placeholders(zh_text(m)) == 2);
            assert(placeholders(en_text(m)) == 2);
        },
        _ => {},
    }
}

/// [`lemma_same_placeholders`] for the messages MemoryMap to BrandRiscv.
#[verifier::spinoff_prover]
#[verifier::rlimit(100)]
proof fn lemma_same_placeholders_10(m: Msg)
    requires
        m is MemoryMap || m is TargetNotConnected || m is BrandOther || m is BrandArm || m is BrandRiscv,
    ensures
        placeholders(zh_text(m)) == placeholders(en_text(m)),
{
    reveal_with_fuel(placeholders_from, 18);
    match m {
        Msg::MemoryMap => {
            reveal_strlit("内存映射:");
            reveal_strlit("Memory Map:");
            assert(placeholders(zh_text(m)) == 0);
            assert(placeholders(en_text(m)) == 0);
        },
        Msg::TargetNotConnected => {
            reveal_strlit("尚未连接目标");
            reveal_strlit("Not connected");
            assert(placeholders(zh_text(m)) == 0);
            assert(placeholders(en_text(m)) == 0);
        },
        Msg::BrandOther => {
            reveal_strlit("其他");
            reveal_strlit("Other");
            assert(placeholders(zh_text(m)) == 0);
            assert(placeholders(en_text(m)) == 0);
        },
        Msg::BrandArm => {
            reveal_strlit("ARM 通用");
            reveal_strlit("ARM Generic");
            assert(placeholders(zh_text(m)) == 0);
            assert(placeholders(en_text(m)) == 0);
        },
        Msg::BrandRiscv => {
            reveal_strlit("RISC-V 通用");
            reveal_strlit("RISC-V Generic");
            assert(placeholders(zh_text(m)) == 0);
            assert(placeholders(en_text(m)) == 0);
        },
        _ => {},
    }
}

/// [`lemma_same_placeholders`] for the messages BrandExternal to TgInputHint.
#[verifier::spinoff_prover]
#[verifier::rlimit(100)]
proof fn lemma_same_placeholders_11(m: Msg)
    requires
        m is BrandExternal || m is AdvancedChipConfig || m is AdvancedChipConfigHint || m is TgInput || m is TgInputHint,
    ensures
        placeholders(zh_text(m)) == placeholders(en_text(m)),
{
    reveal_with_fuel(placeholders_from, 18);
    match m {
        Msg::BrandExternal => {
            reveal_strlit("外部芯片包");
            reveal_strlit("External Pack");
            assert(placeholders(zh_text(m)) == 0);
            assert(placeholders(en_text(m)) == 0);
        },
        Msg::AdvancedChipConfig => {
            reveal_strlit("高级芯片配置");
            reveal_strlit("Advanced Chip Config");
            assert(placeholders(zh_text(m)) == 0);
            assert(placeholders_from(en_text(m), 16) == 0);
            assert(placeholders(en_text(m)) == 0);
        },
        Msg::AdvancedChipConfigHint => {
            reveal_strlit("加载本地 CMSIS Pack（.pack / .pdsc / .zip 或解压目录），自动生成芯片描述，可直接生成后连接目标");
            reveal_strlit("Load a local CMSIS Pack (.pack / .pdsc / .zip or unzipped dir), auto-generate chip descriptions, and optionally connect to the target");
            assert(placeholders_from(zh_text(m), 48) == 0);
            assert(placeholders_from(zh_text(m), 32) == 0);
            assert(placeholders_from(zh_text(m), 16) == 0);
            assert(placeholders(zh_text(m)) == 0);
            assert(placeholders_from(en_text(m), 128) == 0);
            assert(placeholders_from(en_text(m), 112) == 0);
            assert(placeholders_from(en_text(m), 96) == 0);
            assert(placeholders_from(en_text(m), 80) == 0);
            assert(placeholders_from(en_text(m), 64) == 0);
            assert(placeholders_from(en_text(m), 48) == 0);
            assert(placeholders_from(en_text(m), 32) == 0);
            assert(placeholders_from(en_text(m), 16) == 0);
            assert(placeholders(en_text(m)) == 0);
        },
        Msg::TgInput => {
            reveal_strlit("输入:");
            reveal_strlit("Input:");
            assert(placeholders(zh_text(m)) == 0);
            assert(placeholders(en_text(m)) == 0);
        },
        Msg::TgInputHint => {
            reveal_strlit("选择 .pack / .pdsc / .zip 文件，或包含 .pdsc 的解压目录");
            reveal_strlit("Pick a .pack / .pdsc / .zip file, or an unzipped directory containing .pdsc");
            assert(placeholders_from(zh_text(m), 32) == 0);
            assert(placeholders_from(zh_text(m), 16) == 0);
            assert(placeholders(zh_text(m)) == 0);
            assert(placeholders_from(en_text(m), 64) == 0);
            assert(placeholders_from(en_text(m), 48) == 0);
            assert(placeholders_from(en_text(m), 32) == 0);
            assert(placeholders_from(en_text(m), 16) == 0);
            assert(placeholders(en_text(m)) == 0);
        },
        _ => {},
    }
}

/// [`lemma_same_placeholders`] for the messages TgBrowseFile to TgOnlySupported.
#[verifier::spinoff_prover]
#[verifier::rlimit(100)]
proof fn lemma_same_placeholders_12(m: Msg)
    requires
        m is TgBrowseFile || m is TgBrowseDir || m is TgOutputDir || m is TgOutputDirHint || m is TgOnlySupported,
    ensures
        placeholders(zh_text(m)) == placeholders(en_text(m)),
{
    reveal_with_fuel(placeholders_from, 18);
    match m {
        Msg::TgBrowseFile => {
            reveal_strlit("文件...");
            reveal_strlit("File...");
            assert(placeholders(zh_text(m)) == 0);
            assert(placeholders(en_text(m)) == 0);
        },
        Msg::TgBrowseDir => {
            reveal_strlit("目录...");
            reveal_strlit("Dir...");
            assert(placeholders(zh_text(m)) == 0);
            assert(placeholders(en_text(m)) == 0);
        },
        Msg::TgOutputDir => {
            reveal_strlit("输出目录:");
            reveal_strlit("Output dir:");
            assert(placeholders(zh_text(m)) == 0);
            assert(placeholders(en_text(m)) == 0);
        },
        Msg::TgOutputDirHint => {
            reveal_strlit("可选：生成的 <family>.yaml 将写入此目录");
            reveal_strlit("Optional: generated <family>.yaml files will be written here");
            assert(placeholders_from(zh_text(m), 16) == 0);
            assert(placeholders(zh_text(m)) == 0);
            assert(placeholders_from(en_text(m), 48) == 0);
            assert(placeholders_from(en_text(m), 32) == 0);
            assert(placeholders_from(en_text(m), 16) == 0);
            assert(placeholders(en_text(m)) == 0);
        },
        Msg::TgOnlySupported => {
            reveal_strlit("仅生成已支持的芯片族");
            reveal_strlit("Only supported families");
            assert(placeholders(zh_text(m)) == 0);
            assert(placeholders_from(en_text(m), 16) == 0);
            assert(placeholders(en_text(m)) == 0);
        },
        _ => {},
    }
}

/// [`lemma_same_placeholders`] for the messages TgOnlySupportedHint to TgResult.
#[verifier::spinoff_prover]
#[verifier::rlimit(100)]
proof fn lemma_same_placeholders_13(m: Msg)
    requires
        m is TgOnlySupportedHint || m is TgGenerate || m is TgGenerateConnect || m is TgGenerating || m is TgResult,
    ensures
        placeholders(zh_text(m)) == placeholders(en_text(m)),
{
    reveal_with_fuel(placeholders_from, 18);
    match m {
        Msg::TgOnlySupportedHint => {
            reveal_strlit("勾选后仅保留 probe-rs 内置支持芯片族的 target 定义，减少无关文件");
            reveal_strlit("When checked, only targets for probe-rs built-in supported families are kept");
            assert(placeholders_from(zh_text(m), 32) == 0);
            assert(placeholders_from(zh_text(m), 16) == 0);
            assert(placeholders(zh_text(m)) == 0);
            assert(placeholders_from(en_text(m), 64) == 0);
            assert(placeholders_from(en_text(m), 48) == 0);
            assert(placeholders_from(en_text(m), 32) == 0);
            assert(placeholders_from(en_text(m), 16) == 0);
            assert(placeholders(en_text(m)) == 0);
        },
        Msg::TgGenerate => {
            reveal_strlit("生成芯片描述");
            reveal_strlit("Generate");
            assert(placeholders(zh_text(m)) == 0);
            assert(placeholders(en_text(m)) == 0);
        },
        Msg::TgGenerateConnect => {
            reveal_strlit("生成并连接");
            reveal_strlit("Generate & Connect");
            assert(placeholders(zh_text(m)) == 0);
            assert(placeholders_from(en_text(m), 16) == 0);
            assert(placeholders(en_text(m)) == 0);
        },
        Msg::TgGenerating => {
            reveal_strlit("正在从 CMSIS Pack 生成 target 定义，请稍候...");
            reveal_strlit("Generating target definitions from the CMSIS pack...");
            assert(placeholders_from(zh_text(m), 32) == 0);
            assert(placeholders_from(zh_text(m), 16) == 0);
            assert(placeholders(zh_text(m)) == 0);
            assert(placeholders_from(en_text(m), 48) == 0);
            assert(placeholders_from(en_text(m), 32) == 0);
            assert(placeholders_from(en_text(m), 16) == 0);
            assert(placeholders(en_text(m)) == 0);
        },
        Msg::TgResult => {
            reveal_strlit("已生成的芯片族:");
            reveal_strlit("Generated families:");
            assert(placeholders(zh_text(m)) == 0);
            assert(placeholders_from(en_text(m), 16) == 0);
            assert(placeholders(en_text(m)) == 0);
        },
        _ => {},
    }
}

/// [`lemma_same_placeholders`] for the messages TgVariants to TargetsGenerated.
#[verifier::spinoff_prover]
#[verifier::rlimit(100)]
proof fn lemma_same_placeholders_14(m: Msg)
    requires
        m is TgVariants || m is TgInputMissing || m is TgNoSupportedFamily || m is TgSerializeFailed || m is TargetsGenerated,
    ensures
        placeholders(zh_text(m)) == placeholders(en_text(m)),
{
    reveal_with_fuel(placeholders_from, 18);
    match m {
        Msg::TgVariants => {
            reveal_strlit("个型号");
            reveal_strlit("variants");
            assert(placeholders(zh_text(m)) == 0);
            assert(placeholders(en_text(m)) == 0);
        },
        Msg::TgInputMissing => {
            reveal_strlit("输入路径不存在: {}");
            reveal_strlit("Input path does not exist: {}");
            assert(placeholders(zh_text(m)) == 1);
            assert(placeholders_from(en_text(m), 16) == 1);
            assert(placeholders(en_text(m)) == 1);
        },
        Msg::TgNoSupportedFamily => {
            reveal_strlit("该包中没有 probe-rs 已支持的芯片族（可取消勾选『仅生成已支持的芯片族』后重试）");
            reveal_strlit("No probe-rs supported family found in the pack (uncheck 'Only supported families' and retry)");
            assert(placeholders_from(zh_text(m), 32) == 0);
            assert(placeholders_from(zh_text(m), 16) == 0);
            assert(placeholders(zh_text(m)) == 0);
            assert(placeholders_from(en_text(m), 80) == 0);
            assert(placeholders_from(en_text(m), 64) == 0);
            assert(placeholders_from(en_text(m), 48) == 0);
            assert(placeholders_from(en_text(m), 32) == 0);
            assert(placeholders_from(en_text(m), 16) == 0);
            assert(placeholders(en_text(m)) == 0);
        },
        Msg::TgSerializeFailed => {
            reveal_strlit("序列化芯片族 {} 失败: {}");
            reveal_strlit("Failed to serialize family {}: {}");
            assert(placeholders(zh_text(m)) == 2);
            assert(placeholders_from(en_text(m), 32) == 0);
            assert(placeholders_from(en_text(m), 16) == 2);
            assert(placeholders(en_text(m)) == 2);
        },
        Msg::TargetsGenerated => {
            reveal_strlit("已生成 {} 个 target 定义文件");
            reveal_strlit("Generated {} target definition file(s)");
            assert(placeholders_from(zh_text(m), 16) == 0);
            assert(placeholders(zh_text(m)) == 1);
            assert(placeholders_from(en_text(m), 32) == 0);
            assert(placeholders_from(en_text(m), 16) == 0);
            assert(placeholders(en_text(m)) == 1);
        },
        _ => {},
    }
}

/// [`lemma_same_placeholders`] for the messages TargetFileWritten to FirmwareHint.
#[verifier::spinoff_prover]
#[verifier::rlimit(100)]
proof fn lemma_same_placeholders_15(m: Msg)
    requires
        m is TargetFileWritten || m is TgLoadedToSelection || m is FirmwareFlashing || m is FirmwareFile || m is FirmwareHint,
    ensures
        placeholders(zh_text(m)) == placeholders(en_text(m)),
{
    reveal_with_fuel(placeholders_from, 18);
    match m {
        Msg::TargetFileWritten => {
            reveal_strlit("已写入: {}（{} 个型号）");
            reveal_strlit("Written: {} ({} variant(s))");
            assert(placeholders(zh_text(m)) == 2);
            assert(placeholders_from(en_text(m), 16) == 0);
            assert(placeholders(en_text(m)) == 2);
        },
        Msg::TgLoadedToSelection => {
            reveal_strlit("已将 {} 个芯片族加载到手动选型列表");
            reveal_strlit("Loaded {} chip family(ies) into the manual selection list");
            assert(placeholders_from(zh_text(m), 16) == 0);
            assert(placeholders(zh_text(m)) == 1);
            assert(placeholders_from(en_text(m), 48) == 0);
            assert(placeholders_from(en_text(m), 32) == 0);
            assert(placeholders_from(en_text(m), 16) == 0);
            assert(placeholders(en_text(m)) == 1);
        },
        Msg::FirmwareFlashing => {
            reveal_strlit("固件烧录");
            reveal_strlit("Firmware Flashing");
            assert(placeholders(zh_text(m)) == 0);
            assert(placeholders_from(en_text(m), 16) == 0);
            assert(placeholders(en_text(m)) == 0);
        },
        Msg::FirmwareFile => {
            reveal_strlit("固件文件:");
            reveal_strlit("Firmware file:");
            assert(placeholders(zh_text(m)) == 0);
            assert(placeholders(en_text(m)) == 0);
        },
        Msg::FirmwareHint => {
            reveal_strlit("选择 .elf / .hex / .bin / .uf2 文件");
            reveal_strlit("Select .elf / .hex / .bin / .uf2 file");
            assert(placeholders_from(zh_text(m), 16) == 0);
            assert(placeholders(zh_text(m)) == 0);
            assert(placeholders_from(en_text(m), 32) == 0);
            assert(placeholders_from(en_text(m), 16) == 0);
            assert(placeholders(en_text(m)) == 0);
        },
        _ => {},
    }
}

/// [`lemma_same_placeholders`] for the messages Browse to FileFormat.
#[verifier::spinoff_prover]
#[verifier::rlimit(100)]
proof fn lemma_same_placeholders_16(m: Msg)
    requires
        m is Browse || m is FirmwareImage || m is SelectProjectFolder || m is ScanningProject || m is FileFormat,
    ensures
        placeholders(zh_text(m)) == placeholders(en_text(m)),
{
    reveal_with_fuel(placeholders_from, 18);
    match m {
        Msg::Browse => {
            reveal_strlit("浏览...");
            reveal_strlit("Browse...");
            assert(placeholders(zh_text(m)) == 0);
            assert(placeholders(en_text(m)) == 0);
        },
        Msg::FirmwareImage => {
            reveal_strlit("固件镜像");
            reveal_strlit("Firmware image");
            assert(placeholders(zh_text(m)) == 0);
            assert(placeholders(en_text(m)) == 0);
        },
        Msg::SelectProjectFolder => {
            reveal_strlit("选择项目文件夹...");
            reveal_strlit("Select Project Folder...");
            assert(placeholders(zh_text(m)) == 0);
            assert(placeholders_from(en_text(m), 16) == 0);
            assert(placeholders(en_text(m)) == 0);
        },
        Msg::ScanningProject => {
            reveal_strlit("正在扫描项目文件夹并自动识别固件: {}");
            reveal_strlit("Scanning project folder and auto-detecting firmware: {}");
            assert(placeholders_from(zh_text(m), 16) == 1);
            assert(placeholders(zh_text(m)) == 1);
            assert(placeholders_from(en_text(m), 48) == 1);
            assert(placeholders_from(en_text(m), 32) == 1);
            assert(placeholders_from(en_text(m), 16) == 1);
            assert(placeholders(en_text(m)) == 1);
        },
        Msg::FileFormat => {
            reveal_strlit("文件格式: {}");
            reveal_strlit("File format: {}");
            assert(placeholders(zh_text(m)) == 1);
            assert(placeholders(en_text(m)) == 1);
        },
        _ => {},
    }
}

/// [`lemma_same_placeholders`] for the messages BaseAddress to SelectedFirmware.
#[verifier::spinoff_prover]
#[verifier::rlimit(100)]
proof fn lemma_same_placeholders_17(m: Msg)
    requires
        m is BaseAddress || m is ScanningRoot || m is ProjectFirmware || m is NoProjectFirmware || m is SelectedFirmware,
    ensures
        placeholders(zh_text(m)) == placeholders(en_text(m)),
{
    reveal_with_fuel(placeholders_from, 18);
    match m {
        Msg::BaseAddress => {
            reveal_strlit("基地址:");
            reveal_strlit("Base address:");
            assert(placeholders(zh_text(m)) == 0);
            assert(placeholders(en_text(m)) == 0);
        },
        Msg::ScanningRoot => {
            reveal_strlit("扫描中: {}");
            reveal_strlit("Scanning: {}");
            assert(placeholders(zh_text(m)) == 1);
            assert(placeholders(en_text(m)) == 1);
        },
        Msg::ProjectFirmware => {
            reveal_strlit("项目固件:");
            reveal_strlit("Project firmware:");
            assert(placeholders(zh_text(m)) == 0);
            assert(placeholders_from(en_text(m), 16) == 0);
            assert(placeholders(en_text(m)) == 0);
        },
        Msg::NoProjectFirmware => {
            reveal_strlit("未选择项目固件");
            reveal_strlit("No project firmware");
            assert(placeholders(zh_text(m)) == 0);
            assert(placeholders_from(en_text(m), 16) == 0);
            assert(placeholders(en_text(m)) == 0);
        },
        Msg::SelectedFirmware => {
            reveal_strlit("已选择固件: {}");
            reveal_strlit("Selected firmware: {}");
            assert(placeholders(zh_text(m)) == 1);
            assert(placeholders_from(en_text(m), 16) == 1);
            assert(placeholders(en_text(m)) == 1);
        },
        _ => {},
    }
}

/// [`lemma_same_placeholders`] for the messages ChipEraseBeforeFlash to FlashBtn.
#[verifier::spinoff_prover]
#[verifier::rlimit(100)]
proof fn lemma_same_placeholders_18(m: Msg)
    requires
        m is ChipEraseBeforeFlash || m is VerifyAfterFlash || m is KeepUnwritten || m is ResetAndRun || m is FlashBtn,
    ensures
        placeholders(zh_text(m)) == placeholders(en_text(m)),
{
    reveal_with_fuel(placeholders_from, 18);
    match m {
        Msg::ChipEraseBeforeFlash => {
            reveal_strlit("全片擦除后烧录");
            reveal_strlit("Chip erase before flash");
            assert(placeholders(zh_text(m)) == 0);
            assert(placeholders_from(en_text(m), 16) == 0);
            assert(placeholders(en_text(m)) == 0);
        },
        Msg::VerifyAfterFlash => {
            reveal_strlit("烧录后校验");
            reveal_strlit("Verify after flash");
            assert(placeholders(zh_text(m)) == 0);
            assert(placeholders_from(en_text(m), 16) == 0);
            assert(placeholders(en_text(m)) == 0);
        },
        Msg::KeepUnwritten => {
            reveal_strlit("保留未写入字节");
            reveal_strlit("Keep unwritten bytes");
            assert(placeholders(zh_text(m)) == 0);
            assert(placeholders_from(en_text(m), 16) == 0);
            assert(placeholders(en_text(m)) == 0);
        },
        Msg::ResetAndRun => {
            reveal_strlit("烧录后复位运行");
            reveal_strlit("Reset and run after flash");
            assert(placeholders(zh_text(m)) == 0);
            assert(placeholders_from(en_text(m), 16) == 0);
            assert(placeholders(en_text(m)) == 0);
        },
        Msg::FlashBtn => {
            reveal_strlit("开始烧录");
            reveal_strlit("Flash");
            assert(placeholders(zh_text(m)) == 0);
            assert(placeholders(en_text(m)) == 0);
        },
        _ => {},
    }
}

/// [`lemma_same_placeholders`] for the messages EraseAllBtn to ReadFirmwareTitle.
#[verifier::spinoff_prover]
#[verifier::rlimit(100)]
proof fn lemma_same_placeholders_19(m: Msg)
    requires
        m is EraseAllBtn || m is ErasingAll || m is ResetTargetBtn || m is ResettingTarget || m is ReadFirmwareTitle,
    ensures
        placeholders(zh_text(m)) == placeholders(en_text(m)),
{
    reveal_with_fuel(placeholders_from, 18);
    match m {
        Msg::EraseAllBtn => {
            reveal_strlit("全片擦除");
            reveal_strlit("Erase All");
            assert(placeholders(zh_text(m)) == 0);
            assert(placeholders(en_text(m)) == 0);
        },
        Msg::ErasingAll => {
            reveal_strlit("开始全片擦除...");
            reveal_strlit("Erasing all flash...");
            assert(placeholders(zh_text(m)) == 0);
            assert(placeholders_from(en_text(m), 16) == 0);
            assert(placeholders(en_text(m)) == 0);
        },
        Msg::ResetTargetBtn => {
            reveal_strlit("复位目标");
            reveal_strlit("Reset Target");
            assert(placeholders(zh_text(m)) == 0);
            assert(placeholders(en_text(m)) == 0);
        },
        Msg::ResettingTarget => {
            reveal_strlit("正在复位目标...");
            reveal_strlit("Resetting target...");
            assert(placeholders(zh_text(m)) == 0);
            assert(placeholders_from(en_text(m), 16) == 0);
            assert(placeholders(en_text(m)) == 0);
        },
        Msg::ReadFirmwareTitle => {
            reveal_strlit("读取固件");
            reveal_strlit("Read Firmware");
            assert(placeholders(zh_text(m)) == 0);
            assert(placeholders(en_text(m)) == 0);
        },
        _ => {},
    }
}

/// [`lemma_same_placeholders`] for the messages Range to StartingRead.
#[verifier::spinoff_prover]
#[verifier::rlimit(100)]
proof fn lemma_same_placeholders_20(m: Msg)
    requires
        m is Range || m is Bytes || m is SizeKb || m is ReadFirmwareBtn || m is StartingRead,
    ensures
        placeholders(zh_text(m)) == placeholders(en_text(m)),
{
    reveal_with_fuel(placeholders_from, 18);
    match m {
        Msg::Range => {
            reveal_strlit("范围:");
            reveal_strlit("Range:");
            assert(placeholders(zh_text(m)) == 0);
            assert(placeholders(en_text(m)) == 0);
        },
        Msg::Bytes => {
            reveal_strlit("字节");
            reveal_strlit("bytes");
            assert(placeholders(zh_text(m)) == 0);
            assert(placeholders(en_text(m)) == 0);
        },
        Msg::SizeKb => {
            reveal_strlit("大小: {} KB");
            reveal_strlit("Size: {} KB");
            assert(placeholders(zh_text(m)) == 1);
            assert(placeholders(en_text(m)) == 1);
        },
        Msg::ReadFirmwareBtn => {
            reveal_strlit("读取固件...");
            reveal_strlit("Read Firmware...");
            assert(placeholders(zh_text(m)) == 0);
            assert(placeholders(en_text(m)) == 0);
        },
        Msg::StartingRead => {
            reveal_strlit("开始读取: 0x{} - 0x{}");
            reveal_strlit("Starting read: 0x{} - 0x{}");
            assert(placeholders_from(zh_text(m), 16) == 0);
            assert(placeholders(zh_text(m)) == 2);
            assert(placeholders_from(en_text(m), 16) == 2);
            assert(placeholders(en_text(m)) == 2);
        },
        _ => {},
    }
}

/// [`lemma_same_placeholders`] for the messages MemoryViewer to BytesCount.
#[verifier::spinoff_prover]
#[verifier::rlimit(100)]
proof fn lemma_same_placeholders_21(m: Msg)
    requires
        m is MemoryViewer || m is CustomAddress || m is Region || m is Address || m is BytesCount,
    ensures
        placeholders(zh_text(m)) == placeholders(en_text(m)),
{
    reveal_with_fuel(placeholders_from, 18);
    match m {
        Msg::MemoryViewer => {
            reveal_strlit("内存查看器");
            reveal_strlit("Memory Viewer");
            assert(placeholders(zh_text(m)) == 0);
            assert(placeholders(en_text(m)) == 0);
        },
        Msg::CustomAddress => {
            reveal_strlit("自定义地址");
            reveal_strlit("Custom address");
            assert(placeholders(zh_text(m)) == 0);
            assert(placeholders(en_text(m)) == 0);
        },
        Msg::Region => {
            reveal_strlit("区域:");
            reveal_strlit("Region:");
            assert(placeholders(zh_text(m)) == 0);
            assert(placeholders(en_text(m)) == 0);
        },
        Msg::Address => {
            reveal_strlit("地址:");
            reveal_strlit("Address:");
            assert(placeholders(zh_text(m)) == 0);
            assert(placeholders(en_text(m)) == 0);
        },
        Msg::BytesCount => {
            reveal_strlit("字节数:");
            reveal_strlit("Bytes:");
            assert(placeholders(zh_text(m)) == 0);
            assert(placeholders(en_text(m)) == 0);
        },
        _ => {},
    }
}

/// [`lemma_same_placeholders`] for the messages ReadBtn to HexHint.
#[verifier::spinoff_prover]
#[verifier::rlimit(100)]
proof fn lemma_same_placeholders_22(m: Msg)
    requires
        m is ReadBtn || m is NotReadYet || m is WriteMemory || m is Data || m is HexHint,
    ensures
        placeholders(zh_text(m)) == placeholders(en_text(m)),
{
    reveal_with_fuel(placeholders_from, 18);
    match m {
        Msg::ReadBtn => {
            reveal_strlit("读取");
            reveal_strlit("Read");
            assert(placeholders(zh_text(m)) == 0);
            assert(placeholders(en_text(m)) == 0);
        },
        Msg::NotReadYet => {
            reveal_strlit("尚未读取，点击上方『读取』");
            reveal_strlit("Not read yet; click 'Read' above");
            assert(placeholders(zh_text(m)) == 0);
            assert(placeholders_from(en_text(m), 16) == 0);
            assert(placeholders(en_text(m)) == 0);
        },
        Msg::WriteMemory => {
            reveal_strlit("写入内存");
            reveal_strlit("Write Memory");
            assert(placeholders(zh_text(m)) == 0);
            assert(placeholders(en_text(m)) == 0);
        },
        Msg::Data => {
            reveal_strlit("数据:");
            reveal_strlit("Data:");
            assert(placeholders(zh_text(m)) == 0);
            assert(placeholders(en_text(m)) == 0);
        },
        Msg::HexHint => {
            reveal_strlit("十六进制字节，如 DE AD BE EF");
            reveal_strlit("Hex bytes, e.g. DE AD BE EF");
            assert(placeholders_from(zh_text(m), 16) == 0);
            assert(placeholders(zh_text(m)) == 0);
            assert(placeholders_from(en_text(m), 16) == 0);
            assert(placeholders(en_text(m)) == 0);
        },
        _ => {},
    }
}

/// [`lemma_same_placeholders`] for the messages WriteBtn to StartBtn.
#[verifier::spinoff_prover]
#[verifier::rlimit(100)]
proof fn lemma_same_placeholders_23(m: Msg)
    requires
        m is WriteBtn || m is RttLog || m is StopBtn || m is RttRunning || m is StartBtn,
    ensures
        placeholders(zh_text(m)) == placeholders(en_text(m)),
{
    reveal_with_fuel(placeholders_from, 18);
    match m {
        Msg::WriteBtn => {
            reveal_strlit("写入");
            reveal_strlit("Write");
            assert(placeholders(zh_text(m)) == 0);
            assert(placeholders(en_text(m)) == 0);
        },
        Msg::RttLog => {
            reveal_strlit("RTT 日志");
            reveal_strlit("RTT Log");
            assert(placeholders(zh_text(m)) == 0);
            assert(placeholders(en_text(m)) == 0);
        },
        Msg::StopBtn => {
            reveal_strlit("停止");
            reveal_strlit("Stop");
            assert(placeholders(zh_text(m)) == 0);
            assert(placeholders(en_text(m)) == 0);
        },
        Msg::RttRunning => {
            reveal_strlit("● 运行中");
            reveal_strlit("● Running");
            assert(placeholders(zh_text(m)) == 0);
            assert(placeholders(en_text(m)) == 0);
        },
        Msg::StartBtn => {
            reveal_strlit("启动");
            reveal_strlit("Start");
            assert(placeholders(zh_text(m)) == 0);
            assert(placeholders(en_text(m)) == 0);
        },
        _ => {},
    }
}

/// [`lemma_same_placeholders`] for the messages StartingRtt to SendChannel.
#[verifier::spinoff_prover]
#[verifier::rlimit(100)]
proof fn lemma_same_placeholders_24(m: Msg)
    requires
        m is StartingRtt || m is StoppingRtt || m is AutoScroll || m is ShowChannel || m is SendChannel,
    ensures
        placeholders(zh_text(m)) == placeholders(en_text(m)),
{
    reveal_with_fuel(placeholders_from, 18);
    match m {
        Msg::StartingRtt => {
            reveal_strlit("正在启动 RTT（在目标 RAM 中扫描控制块）...");
            reveal_strlit("Starting RTT (scanning target RAM for the control block)...");
            assert(placeholders_from(zh_text(m), 16) == 0);
            assert(placeholders(zh_text(m)) == 0);
            assert(placeholders_from(en_text(m), 48) == 0);
            assert(placeholders_from(en_text(m), 32) == 0);
            assert(placeholders_from(en_text(m), 16) == 0);
            assert(placeholders(en_text(m)) == 0);
        },
        Msg::StoppingRtt => {
            reveal_strlit("正在停止 RTT...");
            reveal_strlit("Stopping RTT...");
            assert(placeholders(zh_text(m)) == 0);
            assert(placeholders(en_text(m)) == 0);
        },
        Msg::AutoScroll => {
            reveal_strlit("自动滚动");
            reveal_strlit("Auto-scroll");
            assert(placeholders(zh_text(m)) == 0);
            assert(placeholders(en_text(m)) == 0);
        },
        Msg::ShowChannel => {
            reveal_strlit("显示通道:");
            reveal_strlit("Show channel:");
            assert(placeholders(zh_text(m)) == 0);
            assert(placeholders(en_text(m)) == 0);
        },
        Msg::SendChannel => {
            reveal_strlit("发送通道:");
            reveal_strlit("Send channel:");
            assert(placeholders(zh_text(m)) == 0);
            assert(placeholders(en_text(m)) == 0);
        },
        _ => {},
    }
}

/// [`lemma_same_placeholders`] for the messages SendHint to DetectedProbes.
#[verifier::spinoff_prover]
#[verifier::rlimit(100)]
proof fn lemma_same_placeholders_25(m: Msg)
    requires
        m is SendHint || m is LoadedChips || m is ScanningDebugProbes || m is NoProbes || m is DetectedProbes,
    ensures
        placeholders(zh_text(m)) == placeholders(en_text(m)),
{
    reveal_with_fuel(placeholders_from, 18);
    match m {
        Msg::SendHint => {
            reveal_strlit("输入内容后回车或点击发送，写入目标下行通道");
            reveal_strlit("Type and press Enter or click Send to write to a down channel");
            assert(placeholders_from(zh_text(m), 16) == 0);
            assert(placeholders(zh_text(m)) == 0);
            assert(placeholders_from(en_text(m), 48) == 0);
            assert(placeholders_from(en_text(m), 32) == 0);
            assert(placeholders_from(en_text(m), 16) == 0);
            assert(placeholders(en_text(m)) == 0);
        },
        Msg::LoadedChips => {
            reveal_strlit("已加载 {} 个内置芯片系列（{} 个品牌），可手动指定目标");
            reveal_strlit("Loaded {} built-in chip families ({} brands); manual target selection is available");
            assert(placeholders_from(zh_text(m), 16) == 0);
            assert(placeholders(zh_text(m)) == 2);
            assert(placeholders_from(en_text(m), 80) == 0);
            assert(placeholders_from(en_text(m), 64) == 0);
            assert(placeholders_from(en_text(m), 48) == 0);
            assert(placeholders_from(en_text(m), 32) == 1);
            assert(placeholders_from(en_text(m), 16) == 1);
            assert(placeholders(en_text(m)) == 2);
        },
        Msg::ScanningDebugProbes => {
            reveal_strlit("正在扫描调试探针...");
            reveal_strlit("Scanning debug probes...");
            assert(placeholders(zh_text(m)) == 0);
            assert(placeholders_from(en_text(m), 16) == 0);
            assert(placeholders(en_text(m)) == 0);
        },
        Msg::NoProbes => {
            reveal_strlit("未检测到任何调试探针，请检查 USB 连接与驱动");
            reveal_strlit("No debug probes detected. Check USB connection and drivers");
            assert(placeholders_from(zh_text(m), 16) == 0);
            assert(placeholders(zh_text(m)) == 0);
            assert(placeholders_from(en_text(m), 48) == 0);
            assert(placeholders_from(en_text(m), 32) == 0);
            assert(placeholders_from(en_text(m), 16) == 0);
            assert(placeholders(en_text(m)) == 0);
        },
        Msg::DetectedProbes => {
            reveal_strlit("检测到 {} 个调试探针");
            reveal_strlit("Detected {} debug probe(s)");
            assert(placeholders(zh_text(m)) == 1);
            assert(placeholders_from(en_text(m), 16) == 0);
            assert(placeholders(en_text(m)) == 1);
        },
        _ => {},
    }
}

/// [`lemma_same_placeholders`] for the messages ConnectedTo to UseOtherFirmware.
#[verifier::spinoff_prover]
#[verifier::rlimit(100)]
proof fn lemma_same_placeholders_26(m: Msg)
    requires
        m is ConnectedTo || m is OperationCompleted || m is NoFirmwareFound || m is AutoDetectedFirmware || m is UseOtherFirmware,
    ensures
        placeholders(zh_text(m)) == placeholders(en_text(m)),
{
    reveal_with_fuel(placeholders_from, 18);
    match m {
        Msg::ConnectedTo => {
            reveal_strlit("已连接目标: {}");
            reveal_strlit("Connected to target: {}");
            assert(placeholders(zh_text(m)) == 1);
            assert(placeholders_from(en_text(m), 16) == 1);
            assert(placeholders(en_text(m)) == 1);
        },
        Msg::OperationCompleted => {
            reveal_strlit("操作成功完成");
            reveal_strlit("Operation completed successfully");
            assert(placeholders(zh_text(m)) == 0);
            assert(placeholders_from(en_text(m), 16) == 0);
            assert(placeholders(en_text(m)) == 0);
        },
        Msg::NoFirmwareFound => {
            reveal_strlit("在 {} 中未找到固件文件 (.elf / .hex / .bin / .uf2)");
            reveal_strlit("No firmware file (.elf / .hex / .bin / .uf2) found in {}");
            assert(placeholders_from(zh_text(m), 32) == 0);
            assert(placeholders_from(zh_text(m), 16) == 0);
            assert(placeholders(zh_text(m)) == 1);
            assert(placeholders_from(en_text(m), 48) == 1);
            assert(placeholders_from(en_text(m), 32) == 1);
            assert(placeholders_from(en_text(m), 16) == 1);
            assert(placeholders(en_text(m)) == 1);
        },
        Msg::AutoDetectedFirmware => {
            reveal_strlit("自动识别到固件: {}（共 {} 个候选）");
            reveal_strlit("Auto-detected firmware: {} ({} candidate(s))");
            assert(placeholders_from(zh_text(m), 16) == 0);
            assert(placeholders(zh_text(m)) == 2);
            assert(placeholders_from(en_text(m), 32) == 0);
            assert(placeholders_from(en_text(m), 16) == 2);
            assert(placeholders(en_text(m)) == 2);
        },
        Msg::UseOtherFirmware => {
            reveal_strlit("如需使用其它固件，请在下方下拉列表中选择");
            reveal_strlit("To use another firmware, pick one from the dropdown below");
            assert(placeholders_from(zh_text(m), 16) == 0);
            assert(placeholders(zh_text(m)) == 0);
            assert(placeholders_from(en_text(m), 48) == 0);
            assert(placeholders_from(en_text(m), 32) == 0);
            assert(placeholders_from(en_text(m), 16) == 0);
            assert(placeholders(en_text(m)) == 0);
        },
        _ => {},
    }
}

/// [`lemma_same_placeholders`] for the messages ChipFileLoaded to MemoryWritten.
#[verifier::spinoff_prover]
#[verifier::rlimit(100)]
proof fn lemma_same_placeholders_27(m: Msg)
    requires
        m is ChipFileLoaded || m is PackGenerated || m is RttStartedSummary || m is MemoryReadDone || m is MemoryWritten,
    ensures
        placeholders(zh_text(m)) == placeholders(en_text(m)),
{
    reveal_with_fuel(placeholders_from, 18);
    match m {
        Msg::ChipFileLoaded => {
            reveal_strlit("已加载芯片包: {}（{} 个型号），可在左侧手动选择");
            reveal_strlit("Chip pack loaded: {} ({} variant(s)); select it manually on the left");
            assert(placeholders_from(zh_text(m), 16) == 0);
            assert(placeholders(zh_text(m)) == 2);
            assert(placeholders_from(en_text(m), 64) == 0);
            assert(placeholders_from(en_text(m), 48) == 0);
            assert(placeholders_from(en_text(m), 32) == 0);
            assert(placeholders_from(en_text(m), 16) == 2);
            assert(placeholders(en_text(m)) == 2);
        },
        Msg::PackGenerated => {
            reveal_strlit("已从 CMSIS 包生成 {} 个芯片族，可在左侧手动选择");
            reveal_strlit("Generated {} chip family(ies) from CMSIS pack; select them manually on the left");
            assert(placeholders_from(zh_text(m), 16) == 0);
            assert(placeholders(zh_text(m)) == 1);
            assert(placeholders_from(en_text(m), 64) == 0);
            assert(placeholders_from(en_text(m), 48) == 0);
            assert(placeholders_from(en_text(m), 32) == 0);
            assert(placeholders_from(en_text(m), 16) == 0);
            assert(placeholders(en_text(m)) == 1);
        },
        Msg::RttStartedSummary => {
            reveal_strlit("RTT 已启动（上行 {}，下行 {}）");
            reveal_strlit("RTT started ({} up, {} down)");
            assert(placeholders_from(zh_text(m), 16) == 1);
            assert(placeholders(zh_text(m)) == 2);
            assert(placeholders_from(en_text(m), 16) == 1);
            assert(placeholders(en_text(m)) == 2);
        },
        Msg::MemoryReadDone => {
            reveal_strlit("读取内存完成: {} 字节");
            reveal_strlit("Memory read: {} bytes");
            assert(placeholders(zh_text(m)) == 1);
            assert(placeholders_from(en_text(m), 16) == 0);
            assert(placeholders(en_text(m)) == 1);
        },
        Msg::MemoryWritten => {
            reveal_strlit("内存写入完成");
            reveal_strlit("Memory written");
            assert(placeholders(zh_text(m)) == 0);
            assert(placeholders(en_text(m)) == 0);
        },
        _ => {},
    }
}

/// [`lemma_same_placeholders`] for the messages UnsupportedFormat to ReadingMemory.
#[verifier::spinoff_prover]
#[verifier::rlimit(100)]
proof fn lemma_same_placeholders_28(m: Msg)
    requires
        m is UnsupportedFormat || m is FlashingPath || m is ConnectFirst || m is ReadLenClamped || m is ReadingMemory,
    ensures
        placeholders(zh_text(m)) == placeholders(en_text(m)),
{
    reveal_with_fuel(placeholders_from, 18);
    match m {
        Msg::UnsupportedFormat => {
            reveal_strlit("不支持的文件格式，请选择 .elf / .hex / .bin / .uf2 文件");
            reveal_strlit("Unsupported file format. Choose a .elf / .hex / .bin / .uf2 file");
            assert(placeholders_from(zh_text(m), 32) == 0);
            assert(placeholders_from(zh_text(m), 16) == 0);
            assert(placeholders(zh_text(m)) == 0);
            assert(placeholders_from(en_text(m), 48) == 0);
            assert(placeholders_from(en_text(m), 32) == 0);
            assert(placeholders_from(en_text(m), 16) == 0);
            assert(placeholders(en_text(m)) == 0);
        },
        Msg::FlashingPath => {
            reveal_strlit("开始烧录: {}");
            reveal_strlit("Flashing: {}");
            assert(placeholders(zh_text(m)) == 1);
            assert(placeholders(en_text(m)) == 1);
        },
        Msg::ConnectFirst => {
            reveal_strlit("请先连接目标芯片");
            reveal_strlit("Connect to a target first");
            assert(placeholders(zh_text(m)) == 0);
            assert(placeholders_from(en_text(m), 16) == 0);
            assert(placeholders(en_text(m)) == 0);
        },
        Msg::ReadLenClamped => {
            reveal_strlit("读取长度已限制为 {} 字节");
            reveal_strlit("Read length clamped to {} bytes");
            assert(placeholders(zh_text(m)) == 1);
            assert(placeholders_from(en_text(m), 16) == 1);
            assert(placeholders(en_text(m)) == 1);
        },
        Msg::ReadingMemory => {
            reveal_strlit("正在读取内存: 0x{}，{} 字节");
            reveal_strlit("Reading memory: 0x{}, {} bytes");
            assert(placeholders_from(zh_text(m), 16) == 0);
            assert(placeholders(zh_text(m)) == 2);
            assert(placeholders_from(en_text(m), 16) == 2);
            assert(placeholders(en_text(m)) == 2);
        },
        _ => {},
    }
}

/// [`lemma_same_placeholders`] for the messages InvalidHexData to RttStoppedFlash.
#[verifier::spinoff_prover]
#[verifier::rlimit(100)]
proof fn lemma_same_placeholders_29(m: Msg)
    requires
        m is InvalidHexData || m is WritingMemory || m is NotConnectedErr || m is RttStoppedReconnect || m is RttStoppedFlash,
    ensures
        placeholders(zh_text(m)) == placeholders(en_text(m)),
{
    reveal_with_fuel(placeholders_from, 18);
    match m {
        Msg::InvalidHexData => {
            reveal_strlit("数据格式错误：请输入十六进制字节（如 DE AD BE EF）");
            reveal_strlit("Invalid data: enter hex bytes (e.g. DE AD BE EF)");
            assert(placeholders_from(zh_text(m), 16) == 0);
            assert(placeholders(zh_text(m)) == 0);
            assert(placeholders_from(en_text(m), 32) == 0);
            assert(placeholders_from(en_text(m), 16) == 0);
            assert(placeholders(en_text(m)) == 0);
        },
        Msg::WritingMemory => {
            reveal_strlit("正在写入内存: 0x{}，{} 字节");
            reveal_strlit("Writing memory: 0x{}, {} bytes");
            assert(placeholders_from(zh_text(m), 16) == 0);
            assert(placeholders(zh_text(m)) == 2);
            assert(placeholders_from(en_text(m), 16) == 2);
            assert(placeholders(en_text(m)) == 2);
        },
        Msg::NotConnectedErr => {
            reveal_strlit("尚未连接到目标芯片，请先自动识别目标");
            reveal_strlit("Not connected to a target. Auto-detect or select the target first");
            assert(placeholders_from(zh_text(m), 16) == 0);
            assert(placeholders(zh_text(m)) == 0);
            assert(placeholders_from(en_text(m), 64) == 0);
            assert(placeholders_from(en_text(m), 48) == 0);
            assert(placeholders_from(en_text(m), 32) == 0);
            assert(placeholders_from(en_text(m), 16) == 0);
            assert(placeholders(en_text(m)) == 0);
        },
        Msg::RttStoppedReconnect => {
            reveal_strlit("重新连接前已停止 RTT");
            reveal_strlit("RTT stopped before reconnecting");
            assert(placeholders(zh_text(m)) == 0);
            assert(placeholders_from(en_text(m), 16) == 0);
            assert(placeholders(en_text(m)) == 0);
        },
        Msg::RttStoppedFlash => {
            reveal_strlit("烧录期间已停止 RTT");
            reveal_strlit("RTT stopped during flashing");
            assert(placeholders(zh_text(m)) == 0);
            assert(placeholders_from(en_text(m), 16) == 0);
            assert(placeholders(en_text(m)) == 0);
        },
        _ => {},
    }
}

/// [`lemma_same_placeholders`] for the messages RttStoppedErase to OpenProbeFailed.
#[verifier::spinoff_prover]
#[verifier::rlimit(100)]
proof fn lemma_same_placeholders_30(m: Msg)
    requires
        m is RttStoppedErase || m is RttStoppedRead || m is RttStoppedManual || m is NoProbeIndex || m is OpenProbeFailed,
    ensures
        placeholders(zh_text(m)) == placeholders(en_text(m)),
{
    reveal_with_fuel(placeholders_from, 18);
    match m {
        Msg::RttStoppedErase => {
            reveal_strlit("擦除期间已停止 RTT");
            reveal_strlit("RTT stopped during erase");
            assert(placeholders(zh_text(m)) == 0);
            assert(placeholders_from(en_text(m), 16) == 0);
            assert(placeholders(en_text(m)) == 0);
        },
        Msg::RttStoppedRead => {
            reveal_strlit("读取期间已停止 RTT");
            reveal_strlit("RTT stopped during read");
            assert(placeholders(zh_text(m)) == 0);
            assert(placeholders_from(en_text(m), 16) == 0);
            assert(placeholders(en_text(m)) == 0);
        },
        Msg::RttStoppedManual => {
            reveal_strlit("RTT 已停止");
            reveal_strlit("RTT stopped");
            assert(placeholders(zh_text(m)) == 0);
            assert(placeholders(en_text(m)) == 0);
        },
        Msg::NoProbeIndex => {
            reveal_strlit("未找到编号为 {} 的调试探针");
            reveal_strlit("No debug probe with index {} found");
            assert(placeholders(zh_text(m)) == 1);
            assert(placeholders_from(en_text(m), 32) == 0);
            assert(placeholders_from(en_text(m), 16) == 1);
            assert(placeholders(en_text(m)) == 1);
        },
        Msg::OpenProbeFailed => {
            reveal_strlit("打开探针失败: {}");
            reveal_strlit("Failed to open probe: {}");
            assert(placeholders(zh_text(m)) == 1);
            assert(placeholders_from(en_text(m), 16) == 1);
            assert(placeholders(en_text(m)) == 1);
        },
        _ => {},
    }
}

/// [`lemma_same_placeholders`] for the messages ConnectTargetFailed to ReadFileFailed.
#[verifier::spinoff_prover]
#[verifier::rlimit(100)]
proof fn lemma_same_placeholders_31(m: Msg)
    requires
        m is ConnectTargetFailed || m is AutoDetectFailed || m is UnderResetFailed || m is ResetFailed || m is ReadFileFailed,
    ensures
        placeholders(zh_text(m)) == placeholders(en_text(m)),
{
    reveal_with_fuel(placeholders_from, 18);
    match m {
        Msg::ConnectTargetFailed => {
            reveal_strlit("连接目标 {} 失败: {}");
            reveal_strlit("Failed to connect to target {}: {}");
            assert(placeholders(zh_text(m)) == 2);
            assert(placeholders_from(en_text(m), 32) == 1);
            assert(placeholders_from(en_text(m), 16) == 2);
            assert(placeholders(en_text(m)) == 2);
        },
        Msg::AutoDetectFailed => {
            reveal_strlit("自动识别目标失败: {}。该探针可能不支持自动识别芯片（如 DAPLink/CMSIS-DAP），请在左侧『手动指定目标芯片』中搜索并选择芯片型号后重试");
            reveal_strlit("Auto-detection failed: {}. The probe may not support auto-identification (e.g. DAPLink/CMSIS-DAP). Please search and select the chip model under 'Manual Target Selection' on the left and retry");
            assert(placeholders_from(zh_text(m), 64) == 0);
            assert(placeholders_from(zh_text(m), 48) == 0);
            assert(placeholders_from(zh_text(m), 32) == 0);
            assert(placeholders_from(zh_text(m), 16) == 0);
            assert(placeholders(zh_text(m)) == 1);
            assert(placeholders_from(en_text(m), 176) == 0);
            assert(placeholders_from(en_text(m), 160) == 0);
            assert(placeholders_from(en_text(m), 144) == 0);
            assert(placeholders_from(en_text(m), 128) == 0);
            assert(placeholders_from(en_text(m), 112) == 0);
            assert(placeholders_from(en_text(m), 96) == 0);
            assert(placeholders_from(en_text(m), 80) == 0);
            assert(placeholders_from(en_text(m), 64) == 0);
            assert(placeholders_from(en_text(m), 48) == 0);
            assert(placeholders_from(en_text(m), 32) == 0);
            assert(placeholders_from(en_text(m), 16) == 1);
            assert(placeholders(en_text(m)) == 1);
        },
        Msg::UnderResetFailed => {
            reveal_strlit("复位期间连接目标失败: {}。该探针可能不支持自动识别芯片（如 DAPLink/CMSIS-DAP），请在左侧『手动指定目标芯片』中搜索并选择芯片型号后重试");
            reveal_strlit("Failed to attach under reset: {}. The probe may not support auto-identification (e.g. DAPLink/CMSIS-DAP). Please search and select the chip model under 'Manual Target Selection' on the left and retry");
            assert(placeholders_from(zh_text(m), 64) == 0);
            assert(placeholders_from(zh_text(m), 48) == 0);
            assert(placeholders_from(zh_text(m), 32) == 0);
            assert(placeholders_from(zh_text(m), 16) == 0);
            assert(placeholders(zh_text(m)) == 1);
            assert(placeholders_from(en_text(m), 192) == 0);
            assert(placeholders_from(en_text(m), 176) == 0);
            assert(placeholders_from(en_text(m), 160) == 0);
            assert(placeholders_from(en_text(m), 144) == 0);
            assert(placeholders_from(en_text(m), 128) == 0);
            assert(placeholders_from(en_text(m), 112) == 0);
            assert(placeholders_from(en_text(m), 96) == 0);
            assert(placeholders_from(en_text(m), 80) == 0);
            assert(placeholders_from(en_text(m), 64) == 0);
            assert(placeholders_from(en_text(m), 48) == 0);
            assert(placeholders_from(en_text(m), 32) == 0);
            assert(placeholders_from(en_text(m), 16) == 1);
            assert(placeholders(en_text(m)) == 1);
        },
        Msg::ResetFailed => {
            reveal_strlit("复位失败: {}");
            reveal_strlit("Reset failed: {}");
            assert(placeholders(zh_text(m)) == 1);
            assert(placeholders(en_text(m)) == 1);
        },
        Msg::ReadFileFailed => {
            reveal_strlit("读取文件失败: {}: {}");
            reveal_strlit("Failed to read file: {}: {}");
            assert(placeholders(zh_text(m)) == 2);
            assert(placeholders_from(en_text(m), 16) == 2);
            assert(placeholders(en_text(m)) == 2);
        },
        _ => {},
    }
}

/// [`lemma_same_placeholders`] for the messages PackGenFailed to EraseFailed.
#[verifier::spinoff_prover]
#[verifier::rlimit(100)]
proof fn lemma_same_placeholders_32(m: Msg)
    requires
        m is PackGenFailed || m is PackNoChips || m is UnsupportedFileFormat || m is FlashFailed || m is EraseFailed,
    ensures
        placeholders(zh_text(m)) == placeholders(en_text(m)),
{
    reveal_with_fuel(placeholders_from, 18);
    match m {
        Msg::PackGenFailed => {
            reveal_strlit("生成芯片描述失败: {}");
            reveal_strlit("Failed to generate chip description: {}");
            assert(placeholders(zh_text(m)) == 1);
            assert(placeholders_from(en_text(m), 32) == 1);
            assert(placeholders_from(en_text(m), 16) == 1);
            assert(placeholders(en_text(m)) == 1);
        },
        Msg::PackNoChips => {
            reveal_strlit("未在包中找到可用芯片");
            reveal_strlit("No usable chips found in the pack");
            assert(placeholders(zh_text(m)) == 0);
            assert(placeholders_from(en_text(m), 32) == 0);
            assert(placeholders_from(en_text(m), 16) == 0);
            assert(placeholders(en_text(m)) == 0);
        },
        Msg::UnsupportedFileFormat => {
            reveal_strlit("不支持的文件格式: .{}，请选择 .elf / .hex / .bin / .uf2 文件");
            reveal_strlit("Unsupported file format: .{}. Choose a .elf / .hex / .bin / .uf2 file");
            assert(placeholders_from(zh_text(m), 32) == 0);
            assert(placeholders_from(zh_text(m), 16) == 0);
            assert(placeholders(zh_text(m)) == 1);
            assert(placeholders_from(en_text(m), 64) == 0);
            assert(placeholders_from(en_text(m), 48) == 0);
            assert(placeholders_from(en_text(m), 32) == 0);
            assert(placeholders_from(en_text(m), 16) == 1);
            assert(placeholders(en_text(m)) == 1);
        },
        Msg::FlashFailed => {
            reveal_strlit("烧录失败: {}");
            reveal_strlit("Flashing failed: {}");
            assert(placeholders(zh_text(m)) == 1);
            assert(placeholders_from(en_text(m), 16) == 1);
            assert(placeholders(en_text(m)) == 1);
        },
        Msg::EraseFailed => {
            reveal_strlit("全片擦除失败: {}");
            reveal_strlit("Chip erase failed: {}");
            assert(placeholders(zh_text(m)) == 1);
            assert(placeholders_from(en_text(m), 16) == 1);
            assert(placeholders(en_text(m)) == 1);
        },
        _ => {},
    }
}

/// [`lemma_same_placeholders`] for the messages CreateFileFailed to ReadingFirmware.
#[verifier::spinoff_prover]
#[verifier::rlimit(100)]
proof fn lemma_same_placeholders_33(m: Msg)
    requires
        m is CreateFileFailed || m is GetCoreFailed || m is ReadFlashFailed || m is WriteFileFailed || m is ReadingFirmware,
    ensures
        placeholders(zh_text(m)) == placeholders(en_text(m)),
{
    reveal_with_fuel(placeholders_from, 18);
    match m {
        Msg::CreateFileFailed => {
            reveal_strlit("创建文件失败: {}");
            reveal_strlit("Failed to create file: {}");
            assert(placeholders(zh_text(m)) == 1);
            assert(placeholders_from(en_text(m), 16) == 1);
            assert(placeholders(en_text(m)) == 1);
        },
        Msg::GetCoreFailed => {
            reveal_strlit("获取核心失败: {}");
            reveal_strlit("Failed to get core: {}");
            assert(placeholders(zh_text(m)) == 1);
            assert(placeholders_from(en_text(m), 16) == 1);
            assert(placeholders(en_text(m)) == 1);
        },
        Msg::ReadFlashFailed => {
            reveal_strlit("读取 Flash 失败 (0x{}): {}");
            reveal_strlit("Failed to read flash (0x{}): {}");
            assert(placeholders_from(zh_text(m), 16) == 1);
            assert(placeholders(zh_text(m)) == 2);
            assert(placeholders_from(en_text(m), 16) == 2);
            assert(placeholders(en_text(m)) == 2);
        },
        Msg::WriteFileFailed => {
            reveal_strlit("写入文件失败: {}");
            reveal_strlit("Failed to write file: {}");
            assert(placeholders(zh_text(m)) == 1);
            assert(placeholders_from(en_text(m), 16) == 1);
            assert(placeholders(en_text(m)) == 1);
        },
        Msg::ReadingFirmware => {
            reveal_strlit("开始读取固件: 0x{} - 0x{}（{} KB）");
            reveal_strlit("Reading firmware: 0x{} - 0x{} ({} KB)");
            assert(placeholders_from(zh_text(m), 16) == 2);
            assert(placeholders(zh_text(m)) == 3);
            assert(placeholders_from(en_text(m), 32) == 0);
            assert(placeholders_from(en_text(m), 16) == 3);
            assert(placeholders(en_text(m)) == 3);
        },
        _ => {},
    }
}

/// [`lemma_same_placeholders`] for the messages ReadOp to StartingOp.
#[verifier::spinoff_prover]
#[verifier::rlimit(100)]
proof fn lemma_same_placeholders_34(m: Msg)
    requires
        m is ReadOp || m is ReadMemoryFailed || m is WriteMemoryFailed || m is LayoutParsed || m is StartingOp,
    ensures
        placeholders(zh_text(m)) == placeholders(en_text(m)),
{
    reveal_with_fuel(placeholders_from, 18);
    match m {
        Msg::ReadOp => {
            reveal_strlit("读取");
            reveal_strlit("Read");
            assert(placeholders(zh_text(m)) == 0);
            assert(placeholders(en_text(m)) == 0);
        },
        Msg::ReadMemoryFailed => {
            reveal_strlit("读取内存失败 (0x{}): {}");
            reveal_strlit("Failed to read memory (0x{}): {}");
            assert(placeholders_from(zh_text(m), 16) == 0);
            assert(placeholders(zh_text(m)) == 2);
            assert(placeholders_from(en_text(m), 16) == 2);
            assert(placeholders(en_text(m)) == 2);
        },
        Msg::WriteMemoryFailed => {
            reveal_strlit("写入内存失败 (0x{}): {}");
            reveal_strlit("Failed to write memory (0x{}): {}");
            assert(placeholders_from(zh_text(m), 16) == 0);
            assert(placeholders(zh_text(m)) == 2);
            assert(placeholders_from(en_text(m), 32) == 0);
            assert(placeholders_from(en_text(m), 16) == 2);
            assert(placeholders(en_text(m)) == 2);
        },
        Msg::LayoutParsed => {
            reveal_strlit("已解析固件布局，准备烧录...");
            reveal_strlit("Firmware layout parsed, ready to flash...");
            assert(placeholders(zh_text(m)) == 0);
            assert(placeholders_from(en_text(m), 32) == 0);
            assert(placeholders_from(en_text(m), 16) == 0);
            assert(placeholders(en_text(m)) == 0);
        },
        Msg::StartingOp => {
            reveal_strlit("开始{}...");
            reveal_strlit("Starting {}...");
            assert(placeholders(zh_text(m)) == 1);
            assert(placeholders(en_text(m)) == 1);
        },
        _ => {},
    }
}

/// [`lemma_same_placeholders`] for the messages EraseLabel to RttNotConnected.
#[verifier::spinoff_prover]
#[verifier::rlimit(100)]
proof fn lemma_same_placeholders_35(m: Msg)
    requires
        m is EraseLabel || m is ProgramLabel || m is VerifyLabel || m is FillLabel || m is RttNotConnected,
    ensures
        placeholders(zh_text(m)) == placeholders(en_text(m)),
{
    reveal_with_fuel(placeholders_from, 18);
    match m {
        Msg::EraseLabel => {
            reveal_strlit("擦除");
            reveal_strlit("Erase");
            assert(placeholders(zh_text(m)) == 0);
            assert(placeholders(en_text(m)) == 0);
        },
        Msg::ProgramLabel => {
            reveal_strlit("编程");
            reveal_strlit("Program");
            assert(placeholders(zh_text(m)) == 0);
            assert(placeholders(en_text(m)) == 0);
        },
        Msg::VerifyLabel => {
            reveal_strlit("校验");
            reveal_strlit("Verify");
            assert(placeholders(zh_text(m)) == 0);
            assert(placeholders(en_text(m)) == 0);
        },
        Msg::FillLabel => {
            reveal_strlit("填充");
            reveal_strlit("Fill");
            assert(placeholders(zh_text(m)) == 0);
            assert(placeholders(en_text(m)) == 0);
        },
        Msg::RttNotConnected => {
            reveal_strlit("尚未连接目标，无法启动 RTT");
            reveal_strlit("Not connected to a target. Cannot start RTT");
            assert(placeholders(zh_text(m)) == 0);
            assert(placeholders_from(en_text(m), 32) == 0);
            assert(placeholders_from(en_text(m), 16) == 0);
            assert(placeholders(en_text(m)) == 0);
        },
        _ => {},
    }
}

/// [`lemma_same_placeholders`] for the messages RttCoreFailedStart to RttReadFailed.
#[verifier::spinoff_prover]
#[verifier::rlimit(100)]
proof fn lemma_same_placeholders_36(m: Msg)
    requires
        m is RttCoreFailedStart || m is RttStartedDetected || m is RttStartFailed || m is RttCoreFailedStopped || m is RttReadFailed,
    ensures
        placeholders(zh_text(m)) == placeholders(en_text(m)),
{
    reveal_with_fuel(placeholders_from, 18);
    match m {
        Msg::RttCoreFailedStart => {
            reveal_strlit("获取核心失败，无法启动 RTT: {}");
            reveal_strlit("Failed to get core. Cannot start RTT: {}");
            assert(placeholders_from(zh_text(m), 16) == 1);
            assert(placeholders(zh_text(m)) == 1);
            assert(placeholders_from(en_text(m), 32) == 1);
            assert(placeholders_from(en_text(m), 16) == 1);
            assert(placeholders(en_text(m)) == 1);
        },
        Msg::RttStartedDetected => {
            reveal_strlit("RTT 已启动，检测到 {} 个上行、{} 个下行通道");
            reveal_strlit("RTT started: {} up, {} down channel(s)");
            assert(placeholders_from(zh_text(m), 16) == 1);
            assert(placeholders(zh_text(m)) == 2);
            assert(placeholders_from(en_text(m), 32) == 0);
            assert(placeholders_from(en_text(m), 16) == 1);
            assert(placeholders(en_text(m)) == 2);
        },
        Msg::RttStartFailed => {
            reveal_strlit("启动 RTT 失败: {}。请确认固件已初始化 RTT 且目标程序正在运行");
            reveal_strlit("Failed to start RTT: {}. Make sure the firmware has initialized RTT and is running");
            assert(placeholders_from(zh_text(m), 32) == 0);
            assert(placeholders_from(zh_text(m), 16) == 0);
            assert(placeholders(zh_text(m)) == 1);
            assert(placeholders_from(en_text(m), 80) == 0);
            assert(placeholders_from(en_text(m), 64) == 0);
            assert(placeholders_from(en_text(m), 48) == 0);
            assert(placeholders_from(en_text(m), 32) == 0);
            assert(placeholders_from(en_text(m), 16) == 1);
            assert(placeholders(en_text(m)) == 1);
        },
        Msg::RttCoreFailedStopped => {
            reveal_strlit("获取核心失败，RTT 已停止: {}");
            reveal_strlit("Failed to get core; RTT stopped: {}");
            assert(placeholders_from(zh_text(m), 16) == 1);
            assert(placeholders(zh_text(m)) == 1);
            assert(placeholders_from(en_text(m), 32) == 1);
            assert(placeholders_from(en_text(m), 16) == 1);
            assert(placeholders(en_text(m)) == 1);
        },
        Msg::RttReadFailed => {
            reveal_strlit("RTT 读取失败，已停止: {}");
            reveal_strlit("RTT read failed, stopped: {}");
            assert(placeholders(zh_text(m)) == 1);
            assert(placeholders_from(en_text(m), 16) == 1);
            assert(placeholders(en_text(m)) == 1);
        },
        _ => {},
    }
}

/// [`lemma_same_placeholders`] for the messages RttNotStarted to RttNoDownChannel.
#[verifier::spinoff_prover]
#[verifier::rlimit(100)]
proof fn lemma_same_placeholders_37(m: Msg)
    requires
        m is RttNotStarted || m is RttCoreFailed || m is RttDownWriteFailed || m is RttDownBufferFull || m is RttNoDownChannel,
    ensures
        placeholders(zh_text(m)) == placeholders(en_text(m)),
{
    reveal_with_fuel(placeholders_from, 18);
    match m {
        Msg::RttNotStarted => {
            reveal_strlit("RTT 未启动或未连接目标");
            reveal_strlit("RTT not started or not connected");
            assert(placeholders(zh_text(m)) == 0);
            assert(placeholders_from(en_text(m), 16) == 0);
            assert(placeholders(en_text(m)) == 0);
        },
        Msg::RttCoreFailed => {
            reveal_strlit("获取核心失败: {}");
            reveal_strlit("Failed to get core: {}");
            assert(placeholders(zh_text(m)) == 1);
            assert(placeholders_from(en_text(m), 16) == 1);
            assert(placeholders(en_text(m)) == 1);
        },
        Msg::RttDownWriteFailed => {
            reveal_strlit("RTT 下行写入失败: {}");
            reveal_strlit("RTT down write failed: {}");
            assert(placeholders(zh_text(m)) == 1);
            assert(placeholders_from(en_text(m), 16) == 1);
            assert(placeholders(en_text(m)) == 1);
        },
        Msg::RttDownBufferFull => {
            reveal_strlit("目标下行缓冲区已满，部分数据未发送");
            reveal_strlit("Target down buffer full, some data was not sent");
            assert(placeholders_from(zh_text(m), 16) == 0);
            assert(placeholders(zh_text(m)) == 0);
            assert(placeholders_from(en_text(m), 32) == 0);
            assert(placeholders_from(en_text(m), 16) == 0);
            assert(placeholders(en_text(m)) == 0);
        },
        Msg::RttNoDownChannel => {
            reveal_strlit("目标未配置 RTT 下行通道");
            reveal_strlit("Target has no RTT down channel");
            assert(placeholders(zh_text(m)) == 0);
            assert(placeholders_from(en_text(m), 16) == 0);
            assert(placeholders(en_text(m)) == 0);
        },
        _ => {},
    }
}

/// Both languages take the same number of `{}` arguments for every
/// message, so a message is filled alike whatever the language.
pub proof fn lemma_same_placeholders(m: Msg)
    ensures
        placeholders(zh_text(m)) == placeholders(en_text(m)),
{
    match m {
        Msg::AppTitle | Msg::ConnectedDot | Msg::NotConnectedDot | Msg::ThemeSystem | Msg::ThemeLight => lemma_same_placeholders_0(m),
        Msg::ThemeDark | Msg::Log | Msg::Clear | Msg::LogEntries | Msg::Send => lemma_same_placeholders_1(m),
        Msg::All | Msg::DeviceDetection | Msg::ProbeLabel | Msg::NotSelected | Msg::Rescan => lemma_same_placeholders_2(m),
        Msg::ScanningProbes | Msg::Scanning | Msg::ConnectionMode | Msg::BootNormal | Msg::BootUnderReset => lemma_same_placeholders_3(m),
        Msg::BootModeHint | Msg::AutoDetectTarget | Msg::AutoDetecting | Msg::Disconnect | Msg::Disconnected => lemma_same_placeholders_4(m),
        Msg::Connecting | Msg::ManualTargetSel | Msg::AutoDetectFailedHint | Msg::ManualTargetHint | Msg::LoadChipFile => lemma_same_placeholders_5(m),
        Msg::LoadingChipFile | Msg::GenerateFromPack | Msg::GeneratingFromPack | Msg::SearchModel | Msg::SearchHint => lemma_same_placeholders_6(m),
        Msg::SelectedChip | Msg::Brand | Msg::Family | Msg::Variant | Msg::NoMatchingBrand => lemma_same_placeholders_7(m),
        Msg::NoMatchingFamily | Msg::NoMatchingVariant | Msg::SelectFamilyFirst | Msg::ConnectByModel | Msg::ConnectingTo => lemma_same_placeholders_8(m),
        Msg::TargetInfo | Msg::ChipModel | Msg::Arch | Msg::CoreCount | Msg::Core => lemma_same_placeholders_9(m),
        Msg::MemoryMap | Msg::TargetNotConnected | Msg::BrandOther | Msg::BrandArm | Msg::BrandRiscv => lemma_same_placeholders_10(m),
        Msg::BrandExternal | Msg::AdvancedChipConfig | Msg::AdvancedChipConfigHint | Msg::TgInput | Msg::TgInputHint => lemma_same_placeholders_11(m),
        Msg::TgBrowseFile | Msg::TgBrowseDir | Msg::TgOutputDir | Msg::TgOutputDirHint | Msg::TgOnlySupported => lemma_same_placeholders_12(m),
        Msg::TgOnlySupportedHint | Msg::TgGenerate | Msg::TgGenerateConnect | Msg::TgGenerating | Msg::TgResult => lemma_same_placeholders_13(m),
        Msg::TgVariants | Msg::TgInputMissing | Msg::TgNoSupportedFamily | Msg::TgSerializeFailed | Msg::TargetsGenerated => lemma_same_placeholders_14(m),
        Msg::TargetFileWritten | Msg::TgLoadedToSelection | Msg::FirmwareFlashing | Msg::FirmwareFile | Msg::FirmwareHint => lemma_same_placeholders_15(m),
        Msg::Browse | Msg::FirmwareImage | Msg::SelectProjectFolder | Msg::ScanningProject | Msg::FileFormat => lemma_same_placeholders_16(m),
        Msg::BaseAddress | Msg::ScanningRoot | Msg::ProjectFirmware | Msg::NoProjectFirmware | Msg::SelectedFirmware => lemma_same_placeholders_17(m),
        Msg::ChipEraseBeforeFlash | Msg::VerifyAfterFlash | Msg::KeepUnwritten | Msg::ResetAndRun | Msg::FlashBtn => lemma_same_placeholders_18(m),
        Msg::EraseAllBtn | Msg::ErasingAll | Msg::ResetTargetBtn | Msg::ResettingTarget | Msg::ReadFirmwareTitle => lemma_same_placeholders_19(m),
        Msg::Range | Msg::Bytes | Msg::SizeKb | Msg::ReadFirmwareBtn | Msg::StartingRead => lemma_same_placeholders_20(m),
        Msg::MemoryViewer | Msg::CustomAddress | Msg::Region | Msg::Address | Msg::BytesCount => lemma_same_placeholders_21(m),
        Msg::ReadBtn | Msg::NotReadYet | Msg::WriteMemory | Msg::Data | Msg::HexHint => lemma_same_placeholders_22(m),
        Msg::WriteBtn | Msg::RttLog | Msg::StopBtn | Msg::RttRunning | Msg::StartBtn => lemma_same_placeholders_23(m),
        Msg::StartingRtt | Msg::StoppingRtt | Msg::AutoScroll | Msg::ShowChannel | Msg::SendChannel => lemma_same_placeholders_24(m),
        Msg::SendHint | Msg::LoadedChips | Msg::ScanningDebugProbes | Msg::NoProbes | Msg::DetectedProbes => lemma_same_placeholders_25(m),
        Msg::ConnectedTo | Msg::OperationCompleted | Msg::NoFirmwareFound | Msg::AutoDetectedFirmware | Msg::UseOtherFirmware => lemma_same_placeholders_26(m),
        Msg::ChipFileLoaded | Msg::PackGenerated | Msg::RttStartedSummary | Msg::MemoryReadDone | Msg::MemoryWritten => lemma_same_placeholders_27(m),
        Msg::UnsupportedFormat | Msg::FlashingPath | Msg::ConnectFirst | Msg::ReadLenClamped | Msg::ReadingMemory => lemma_same_placeholders_28(m),
        Msg::InvalidHexData | Msg::WritingMemory | Msg::NotConnectedErr | Msg::RttStoppedReconnect | Msg::RttStoppedFlash => lemma_same_placeholders_29(m),
        Msg::RttStoppedErase | Msg::RttStoppedRead | Msg::RttStoppedManual | Msg::NoProbeIndex | Msg::OpenProbeFailed => lemma_same_placeholders_30(m),
        Msg::ConnectTargetFailed | Msg::AutoDetectFailed | Msg::UnderResetFailed | Msg::ResetFailed | Msg::ReadFileFailed => lemma_same_placeholders_31(m),
        Msg::PackGenFailed | Msg::PackNoChips | Msg::UnsupportedFileFormat | Msg::FlashFailed | Msg::EraseFailed => lemma_same_placeholders_32(m),
        Msg::CreateFileFailed | Msg::GetCoreFailed | Msg::ReadFlashFailed | Msg::WriteFileFailed | Msg::ReadingFirmware => lemma_same_placeholders_33(m),
        Msg::ReadOp | Msg::ReadMemoryFailed | Msg::WriteMemoryFailed | Msg::LayoutParsed | Msg::StartingOp => lemma_same_placeholders_34(m),
        Msg::EraseLabel | Msg::ProgramLabel | Msg::VerifyLabel | Msg::FillLabel | Msg::RttNotConnected => lemma_same_placeholders_35(m),
        Msg::RttCoreFailedStart | Msg::RttStartedDetected | Msg::RttStartFailed | Msg::RttCoreFailedStopped | Msg::RttReadFailed => lemma_same_placeholders_36(m),
        Msg::RttNotStarted | Msg::RttCoreFailed | Msg::RttDownWriteFailed | Msg::RttDownBufferFull | Msg::RttNoDownChannel => lemma_same_placeholders_37(m),
    }
}

} // verus!
